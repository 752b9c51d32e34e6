//! Configuration parameters of a channel, and the ISO 15765 parameters among
//! them.

use vstd::prelude::*;
use crate::driver::{ErrorView, J2534Error};
use crate::passthru::{ISO15765_BS, ISO15765_PAD_VALUE, ISO15765_STMIN, ISO15765_WFTMAX};

verus! {

/// One configuration parameter with its value.
#[derive(Debug, Clone, Copy, PartialEq, Eq, Structural)]
pub struct SConfig {
    pub parameter: u32,
    pub value: u32,
}

/// A list of parameters as it is handed to the driver: the parameters and their
/// number.
#[derive(Debug, Clone, PartialEq, Eq)]
pub struct SConfigList {
    pub num_of_params: u32,
    pub params: Vec<SConfig>,
}

/// The text of the failure for an empty parameter list.
pub open spec fn no_params_text() -> Seq<char> {
    "No params provided"@
}

/// `len` as the 32-bit count field holds it.
pub open spec fn count_field(len: nat) -> u32 {
    (len % 0x1_0000_0000) as u32
}

impl SConfigList {
    /// Wraps parameters for the driver. An empty list is refused with
    /// `InvalidConfig`; every other list is accepted as it stands.
    pub fn new(params: Vec<SConfig>) -> (r: Result<SConfigList, J2534Error>)
        ensures
            match r {
                Ok(list) => params@.len() > 0 && list.params@ == params@ && list.num_of_params
                    == count_field(params@.len()),
                Err(e) => params@.len() == 0 && e@ == ErrorView::InvalidConfig(no_params_text()),
            },
    {
        if params.len() == 0 {
            return Err(J2534Error::InvalidConfig("No params provided".to_owned()));
        }
        let total = params.len();
        assert((total as u32) as u64 == (total as u64) % 0x1_0000_0000u64) by (bit_vector);
        Ok(SConfigList { num_of_params: total as u32, params })
    }
}

/// The ISO 15765 parameters that a caller wants set; `None` leaves one as it is.
#[derive(Debug, Clone, Copy, PartialEq, Eq, Structural)]
pub struct IsoTpConfig {
    pub block_size: Option<u32>,
    pub st_min: Option<u32>,
    pub wft_max: Option<u32>,
    pub pad_value: Option<u32>,
}

/// The parameter for one optional value: none where the value is absent.
pub open spec fn optional_param(parameter: u32, value: Option<u32>) -> Seq<SConfig> {
    match value {
        Some(v) => seq![SConfig { parameter, value: v }],
        None => Seq::empty(),
    }
}

impl IsoTpConfig {
    /// The parameters to set, in the order block size, separation time, wait
    /// frames, pad value, each only where a value is given.
    pub open spec fn spec_params(self) -> Seq<SConfig> {
        optional_param(ISO15765_BS, self.block_size) + optional_param(
            ISO15765_STMIN,
            self.st_min,
        ) + optional_param(ISO15765_WFTMAX, self.wft_max) + optional_param(
            ISO15765_PAD_VALUE,
            self.pad_value,
        )
    }

    /// Whether no value at all is given.
    pub open spec fn spec_is_empty(self) -> bool {
        self.block_size is None && self.st_min is None && self.wft_max is None
            && self.pad_value is None
    }

    /// Returns whether no value at all is given.
    #[verifier::when_used_as_spec(spec_is_empty)]
    pub fn is_empty(self) -> (r: bool)
        ensures
            r == self.spec_is_empty(),
    {
        self.block_size.is_none() && self.st_min.is_none() && self.wft_max.is_none()
            && self.pad_value.is_none()
    }

    /// Lists the parameters to set.
    pub fn params(self) -> (r: Vec<SConfig>)
        ensures
            r@ == self.spec_params(),
    {
        let mut params: Vec<SConfig> = Vec::new();
        if let Some(block_size) = self.block_size {
            params.push(SConfig { parameter: ISO15765_BS, value: block_size });
        }
        if let Some(st_min) = self.st_min {
            params.push(SConfig { parameter: ISO15765_STMIN, value: st_min });
        }
        if let Some(wft_max) = self.wft_max {
            params.push(SConfig { parameter: ISO15765_WFTMAX, value: wft_max });
        }
        if let Some(pad_value) = self.pad_value {
            params.push(SConfig { parameter: ISO15765_PAD_VALUE, value: pad_value });
        }
        assert(params@ =~= self.spec_params());
        params
    }
}

/// The ISO 15765 parameters as read from a channel.
#[derive(Debug, Clone, Copy, PartialEq, Eq, Structural)]
pub struct IsoTpConfigRead {
    pub block_size: u32,
    pub st_min: u32,
    pub wft_max: u32,
    pub pad_value: u32,
}

/// `read` with the value of one parameter taken over; a parameter that is none
/// of the four changes nothing.
pub open spec fn with_param(read: IsoTpConfigRead, cfg: SConfig) -> IsoTpConfigRead {
    if cfg.parameter == ISO15765_BS {
        IsoTpConfigRead { block_size: cfg.value, ..read }
    } else if cfg.parameter == ISO15765_STMIN {
        IsoTpConfigRead { st_min: cfg.value, ..read }
    } else if cfg.parameter == ISO15765_WFTMAX {
        IsoTpConfigRead { wft_max: cfg.value, ..read }
    } else if cfg.parameter == ISO15765_PAD_VALUE {
        IsoTpConfigRead { pad_value: cfg.value, ..read }
    } else {
        read
    }
}

/// The parameters read, after `values` have been taken over one by one, starting
/// from all zero. Where a parameter occurs twice, the later value stands.
pub open spec fn read_from(values: Seq<SConfig>) -> IsoTpConfigRead
    decreases values.len(),
{
    if values.len() == 0 {
        IsoTpConfigRead { block_size: 0, st_min: 0, wft_max: 0, pad_value: 0 }
    } else {
        with_param(read_from(values.drop_last()), values.last())
    }
}

/// The four parameters to ask the driver for, each with the value zero.
pub open spec fn query_params() -> Seq<SConfig> {
    seq![
        SConfig { parameter: ISO15765_BS, value: 0 },
        SConfig { parameter: ISO15765_STMIN, value: 0 },
        SConfig { parameter: ISO15765_WFTMAX, value: 0 },
        SConfig { parameter: ISO15765_PAD_VALUE, value: 0 },
    ]
}

impl IsoTpConfigRead {
    /// Lists the parameters to ask the driver for.
    pub fn query() -> (r: Vec<SConfig>)
        ensures
            r@ == query_params(),
    {
        let mut params: Vec<SConfig> = Vec::new();
        params.push(SConfig { parameter: ISO15765_BS, value: 0 });
        params.push(SConfig { parameter: ISO15765_STMIN, value: 0 });
        params.push(SConfig { parameter: ISO15765_WFTMAX, value: 0 });
        params.push(SConfig { parameter: ISO15765_PAD_VALUE, value: 0 });
        assert(params@ =~= query_params());
        params
    }

    /// Collects the values that the driver returned.
    pub fn from_params(values: &[SConfig]) -> (r: IsoTpConfigRead)
        ensures
            r == read_from(values@),
    {
        let mut read = IsoTpConfigRead { block_size: 0, st_min: 0, wft_max: 0, pad_value: 0 };
        let mut k: usize = 0;
        assert(values@.subrange(0, 0) =~= Seq::<SConfig>::empty());
        while k < values.len()
            invariant
                k <= values@.len(),
                read == read_from(values@.subrange(0, k as int)),
            decreases values@.len() - k,
        {
            let cfg = values[k];
            assert(values@.subrange(0, k as int + 1).drop_last() =~= values@.subrange(0, k as int));
            if cfg.parameter == ISO15765_BS {
                read.block_size = cfg.value;
            } else if cfg.parameter == ISO15765_STMIN {
                read.st_min = cfg.value;
            } else if cfg.parameter == ISO15765_WFTMAX {
                read.wft_max = cfg.value;
            } else if cfg.parameter == ISO15765_PAD_VALUE {
                read.pad_value = cfg.value;
            }
            k += 1;
        }
        assert(values@.subrange(0, k as int) =~= values@);
        read
    }
}

/// What was asked for is what is read: the values set through `params`, read
/// back in the same order, are the values given, and zero where none was given.
pub proof fn lemma_params_read_back(config: IsoTpConfig)
    ensures
        read_from(config.spec_params()) == (IsoTpConfigRead {
            block_size: match config.block_size {
                Some(v) => v,
                None => 0,
            },
            st_min: match config.st_min {
                Some(v) => v,
                None => 0,
            },
            wft_max: match config.wft_max {
                Some(v) => v,
                None => 0,
            },
            pad_value: match config.pad_value {
                Some(v) => v,
                None => 0,
            },
        }),
        config.spec_is_empty() <==> config.spec_params().len() == 0,
{
    let zero = IsoTpConfigRead { block_size: 0, st_min: 0, wft_max: 0, pad_value: 0 };
    let empty = Seq::<SConfig>::empty();
    let a = empty + optional_param(ISO15765_BS, config.block_size);
    let b = a + optional_param(ISO15765_STMIN, config.st_min);
    let c = b + optional_param(ISO15765_WFTMAX, config.wft_max);
    let d = c + optional_param(ISO15765_PAD_VALUE, config.pad_value);
    assert(d =~= config.spec_params());
    assert(read_from(empty) == zero);
    lemma_read_step(empty, ISO15765_BS, config.block_size);
    lemma_read_step(a, ISO15765_STMIN, config.st_min);
    lemma_read_step(b, ISO15765_WFTMAX, config.wft_max);
    lemma_read_step(c, ISO15765_PAD_VALUE, config.pad_value);
}

/// Taking over one optional parameter after `values`.
proof fn lemma_read_step(values: Seq<SConfig>, parameter: u32, value: Option<u32>)
    ensures
        read_from(values + optional_param(parameter, value)) == match value {
            Some(v) => with_param(read_from(values), SConfig { parameter, value: v }),
            None => read_from(values),
        },
{
    let all = values + optional_param(parameter, value);
    match value {
        Some(v) => {
            assert(all.drop_last() =~= values);
            assert(all.last() == SConfig { parameter, value: v });
        },
        None => {
            assert(all =~= values);
        },
    }
}

} // verus!
