//! Bookkeeping of a driver session: status codes, open channels and the filters
//! set on them. The calls into the driver itself are made elsewhere; here is what
//! is decided before and after them.

use vstd::prelude::*;
use crate::passthru::{
    msg_views, read_of, CPassThruMsg, MsgView, PassThruMsg, ProtocolKind, ERR_BUFFER_EMPTY,
    ERR_TIMEOUT, PASSTHRU_ERR_SUCCESS,
};

verus! {

/// Failures of the driver layer.
#[derive(Debug, Clone, PartialEq, Eq)]
pub enum J2534Error {
    LoadError(String),
    SymbolError(String),
    PassThruError(i32),
    NotConnected,
    ChannelNotOpen(String),
    InvalidConfig(String),
    VersionError(String),
}

/// A failure of the driver layer, with its text as a sequence.
pub enum ErrorView {
    LoadError(Seq<char>),
    SymbolError(Seq<char>),
    PassThruError(i32),
    NotConnected,
    ChannelNotOpen(Seq<char>),
    InvalidConfig(Seq<char>),
    VersionError(Seq<char>),
}

impl View for J2534Error {
    type V = ErrorView;

    open spec fn view(&self) -> ErrorView {
        match self {
            J2534Error::LoadError(s) => ErrorView::LoadError(s@),
            J2534Error::SymbolError(s) => ErrorView::SymbolError(s@),
            J2534Error::PassThruError(code) => ErrorView::PassThruError(*code),
            J2534Error::NotConnected => ErrorView::NotConnected,
            J2534Error::ChannelNotOpen(s) => ErrorView::ChannelNotOpen(s@),
            J2534Error::InvalidConfig(s) => ErrorView::InvalidConfig(s@),
            J2534Error::VersionError(s) => ErrorView::VersionError(s@),
        }
    }
}

/// View of a result whose error is a driver failure.
pub open spec fn result_view<T>(r: Result<T, J2534Error>) -> Result<T, ErrorView> {
    match r {
        Ok(v) => Ok(v),
        Err(e) => Err(e@),
    }
}

/// What a status code of the driver means: success for zero, else a failure that
/// carries the code.
pub open spec fn status_of(code: i32) -> Result<(), ErrorView> {
    if code == PASSTHRU_ERR_SUCCESS {
        Ok(())
    } else {
        Err(ErrorView::PassThruError(code))
    }
}

/// Turns a status code of the driver into a result.
pub fn check_status(code: i32) -> (r: Result<(), J2534Error>)
    ensures
        result_view(r) == status_of(code),
{
    if code != PASSTHRU_ERR_SUCCESS {
        return Err(J2534Error::PassThruError(code));
    }
    Ok(())
}

/// Name of a protocol in failure texts.
pub open spec fn channel_name(protocol: ProtocolKind) -> Seq<char> {
    match protocol {
        ProtocolKind::Can => "CAN"@,
        ProtocolKind::Iso15765 => "ISO15765"@,
    }
}

/// Number of messages to ask the driver for: the number wanted, but at least one.
pub fn read_capacity(max_msgs: u32) -> (r: u32)
    ensures
        r == if max_msgs < 1 {
            1
        } else {
            max_msgs
        },
{
    if max_msgs < 1 {
        1
    } else {
        max_msgs
    }
}

/// What a read yields, given the status code of the driver and the messages it
/// wrote. On success these are the messages, each read out of its fixed-size
/// form. An empty buffer and a timeout are no failures: they yield no messages.
/// Every other code is a failure.
pub open spec fn read_outcome(status: i32, filled: Seq<CPassThruMsg>) -> Result<
    Seq<MsgView>,
    ErrorView,
> {
    if status == PASSTHRU_ERR_SUCCESS {
        Ok(Seq::new(filled.len(), |i: int| read_of(filled[i]@)))
    } else if status == ERR_BUFFER_EMPTY || status == ERR_TIMEOUT {
        Ok(Seq::empty())
    } else {
        Err(ErrorView::PassThruError(status))
    }
}

/// View of the result of a read.
pub open spec fn read_view(r: Result<Vec<PassThruMsg>, J2534Error>) -> Result<
    Seq<MsgView>,
    ErrorView,
> {
    match r {
        Ok(msgs) => Ok(msg_views(msgs@)),
        Err(e) => Err(e@),
    }
}

/// Interprets what the driver returned from a read: its status code and the part
/// of the buffer that it reported as written.
pub fn read_result(status: i32, filled: &[CPassThruMsg]) -> (r: Result<
    Vec<PassThruMsg>,
    J2534Error,
>)
    ensures
        read_view(r) == read_outcome(status, filled@),
{
    if status != PASSTHRU_ERR_SUCCESS {
        if status == ERR_BUFFER_EMPTY || status == ERR_TIMEOUT {
            let none: Vec<PassThruMsg> = Vec::new();
            assert(msg_views(none@) =~= Seq::<MsgView>::empty());
            return Ok(none);
        }
        return Err(J2534Error::PassThruError(status));
    }
    let mut result: Vec<PassThruMsg> = Vec::new();
    let mut i: usize = 0;
    while i < filled.len()
        invariant
            i <= filled@.len(),
            result@.len() == i,
            forall|j: int| 0 <= j < i ==> (#[trigger] result@[j])@ == read_of(filled@[j]@),
        decreases filled@.len() - i,
    {
        result.push(PassThruMsg::from(&filled[i]));
        i += 1;
    }
    assert(msg_views(result@) =~= Seq::new(filled@.len(), |i: int| read_of(filled@[i]@)));
    Ok(result)
}

/// The channels and filters of a session.
#[derive(Debug, Clone, PartialEq, Eq)]
pub struct DriverState {
    pub device_id: u32,
    pub can_channel_id: Option<u32>,
    pub iso_channel_id: Option<u32>,
    pub can_filter_ids: Vec<u32>,
    pub iso_filter_ids: Vec<u32>,
    pub iso_fc_filter_id: Option<u32>,
}

/// What a session holds, with its filter lists as sequences.
pub struct StateView {
    pub device_id: u32,
    pub can_channel_id: Option<u32>,
    pub iso_channel_id: Option<u32>,
    pub can_filter_ids: Seq<u32>,
    pub iso_filter_ids: Seq<u32>,
    pub iso_fc_filter_id: Option<u32>,
}

impl View for DriverState {
    type V = StateView;

    open spec fn view(&self) -> StateView {
        StateView {
            device_id: self.device_id,
            can_channel_id: self.can_channel_id,
            iso_channel_id: self.iso_channel_id,
            can_filter_ids: self.can_filter_ids@,
            iso_filter_ids: self.iso_filter_ids@,
            iso_fc_filter_id: self.iso_fc_filter_id,
        }
    }
}

impl StateView {
    /// A session with device 0, no channel open and no filter set.
    pub open spec fn initial() -> StateView {
        StateView {
            device_id: 0,
            can_channel_id: None,
            iso_channel_id: None,
            can_filter_ids: Seq::empty(),
            iso_filter_ids: Seq::empty(),
            iso_fc_filter_id: None,
        }
    }

    /// The channel open for `protocol`, if one is.
    pub open spec fn channel(self, protocol: ProtocolKind) -> Option<u32> {
        match protocol {
            ProtocolKind::Can => self.can_channel_id,
            ProtocolKind::Iso15765 => self.iso_channel_id,
        }
    }

    /// The pass filters set on the channel of `protocol`.
    pub open spec fn filters(self, protocol: ProtocolKind) -> Seq<u32> {
        match protocol {
            ProtocolKind::Can => self.can_filter_ids,
            ProtocolKind::Iso15765 => self.iso_filter_ids,
        }
    }

    /// This session with `channel` as the channel of `protocol`.
    pub open spec fn with_channel(self, protocol: ProtocolKind, channel: Option<u32>) -> StateView {
        match protocol {
            ProtocolKind::Can => StateView { can_channel_id: channel, ..self },
            ProtocolKind::Iso15765 => StateView { iso_channel_id: channel, ..self },
        }
    }

    /// This session with `ids` as the pass filters of `protocol`.
    pub open spec fn with_filters(self, protocol: ProtocolKind, ids: Seq<u32>) -> StateView {
        match protocol {
            ProtocolKind::Can => StateView { can_filter_ids: ids, ..self },
            ProtocolKind::Iso15765 => StateView { iso_filter_ids: ids, ..self },
        }
    }

    /// The channel of `protocol`, or the failure that names the protocol.
    pub open spec fn channel_or_error(self, protocol: ProtocolKind) -> Result<u32, ErrorView> {
        match self.channel(protocol) {
            Some(id) => Ok(id),
            None => Err(ErrorView::ChannelNotOpen(channel_name(protocol))),
        }
    }

    /// The channels to disconnect when the session closes: CAN first, then
    /// ISO 15765, each if open.
    pub open spec fn open_channels(self) -> Seq<u32> {
        let can = match self.can_channel_id {
            Some(id) => seq![id],
            None => Seq::empty(),
        };
        let iso = match self.iso_channel_id {
            Some(id) => seq![id],
            None => Seq::empty(),
        };
        can + iso
    }
}

impl DriverState {
    /// A fresh session: device 0, no channel open, no filter set.
    pub fn new() -> (r: DriverState)
        ensures
            r@ == StateView::initial(),
    {
        DriverState {
            device_id: 0,
            can_channel_id: None,
            iso_channel_id: None,
            can_filter_ids: Vec::new(),
            iso_filter_ids: Vec::new(),
            iso_fc_filter_id: None,
        }
    }

    /// Returns the channel open for `protocol`, or `ChannelNotOpen` with the name
    /// of the protocol.
    pub fn channel_id(&self, protocol: ProtocolKind) -> (r: Result<u32, J2534Error>)
        ensures
            result_view(r) == self@.channel_or_error(protocol),
    {
        match protocol {
            ProtocolKind::Can => match self.can_channel_id {
                Some(id) => Ok(id),
                None => Err(J2534Error::ChannelNotOpen("CAN".to_owned())),
            },
            ProtocolKind::Iso15765 => match self.iso_channel_id {
                Some(id) => Ok(id),
                None => Err(J2534Error::ChannelNotOpen("ISO15765".to_owned())),
            },
        }
    }

    /// Records the channel that the driver opened for `protocol`.
    pub fn set_channel(&mut self, protocol: ProtocolKind, channel_id: u32)
        ensures
            final(self)@ == old(self)@.with_channel(protocol, Some(channel_id)),
    {
        match protocol {
            ProtocolKind::Can => {
                self.can_channel_id = Some(channel_id);
            },
            ProtocolKind::Iso15765 => {
                self.iso_channel_id = Some(channel_id);
            },
        }
    }

    /// Forgets both channels and returns those that were open, in the order in
    /// which they are to be disconnected.
    pub fn take_channels(&mut self) -> (open: Vec<u32>)
        ensures
            open@ == old(self)@.open_channels(),
            final(self)@ == old(self)@.with_channel(ProtocolKind::Can, None).with_channel(
                ProtocolKind::Iso15765,
                None,
            ),
    {
        let mut open: Vec<u32> = Vec::new();
        if let Some(id) = self.can_channel_id {
            open.push(id);
        }
        if let Some(id) = self.iso_channel_id {
            open.push(id);
        }
        self.can_channel_id = None;
        self.iso_channel_id = None;
        assert(open@ =~= old(self)@.open_channels());
        open
    }

    /// Begins clearing the pass filters of `protocol`: fails, and changes nothing,
    /// when no channel is open for it; else forgets the filters and returns the
    /// channel together with the filters to stop, in the order in which they
    /// were set.
    pub fn take_filters(&mut self, protocol: ProtocolKind) -> (r: Result<
        (u32, Vec<u32>),
        J2534Error,
    >)
        ensures
            match r {
                Ok((channel, ids)) => old(self)@.channel(protocol) == Some(channel) && ids@ == old(
                    self,
                )@.filters(protocol) && final(self)@ == old(self)@.with_filters(
                    protocol,
                    Seq::empty(),
                ),
                Err(e) => old(self)@.channel(protocol) is None && e@ == ErrorView::ChannelNotOpen(
                    channel_name(protocol),
                ) && final(self)@ == old(self)@,
            },
    {
        let channel = match self.channel_id(protocol) {
            Ok(id) => id,
            Err(e) => {
                return Err(e);
            },
        };
        let mut ids: Vec<u32> = Vec::new();
        match protocol {
            ProtocolKind::Can => {
                std::mem::swap(&mut ids, &mut self.can_filter_ids);
            },
            ProtocolKind::Iso15765 => {
                std::mem::swap(&mut ids, &mut self.iso_filter_ids);
            },
        }
        Ok((channel, ids))
    }

    /// Records the pass filters that were set for `protocol`.
    pub fn store_filters(&mut self, protocol: ProtocolKind, ids: Vec<u32>)
        ensures
            final(self)@ == old(self)@.with_filters(protocol, ids@),
    {
        match protocol {
            ProtocolKind::Can => {
                self.can_filter_ids = ids;
            },
            ProtocolKind::Iso15765 => {
                self.iso_filter_ids = ids;
            },
        }
    }

    /// Begins clearing the flow-control filter: fails, and changes nothing, when
    /// no ISO 15765 channel is open; else forgets the filter and returns the
    /// channel together with the filter to stop, if one was set.
    pub fn take_flow_control_filter(&mut self) -> (r: Result<(u32, Option<u32>), J2534Error>)
        ensures
            match r {
                Ok((channel, filter)) => old(self)@.iso_channel_id == Some(channel) && filter
                    == old(self)@.iso_fc_filter_id && final(self)@ == (StateView {
                    iso_fc_filter_id: None,
                    ..old(self)@
                }),
                Err(e) => old(self)@.iso_channel_id is None && e@ == ErrorView::ChannelNotOpen(
                    channel_name(ProtocolKind::Iso15765),
                ) && final(self)@ == old(self)@,
            },
    {
        let channel = match self.channel_id(ProtocolKind::Iso15765) {
            Ok(id) => id,
            Err(e) => {
                return Err(e);
            },
        };
        let filter = self.iso_fc_filter_id;
        self.iso_fc_filter_id = None;
        Ok((channel, filter))
    }

    /// Records the flow-control filter that was set.
    pub fn set_flow_control_filter(&mut self, filter_id: u32)
        ensures
            final(self)@ == (StateView { iso_fc_filter_id: Some(filter_id), ..old(self)@ }),
    {
        self.iso_fc_filter_id = Some(filter_id);
    }
}

} // verus!
