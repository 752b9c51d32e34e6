//! A scan for modules, as decisions: which request goes out next, what is made of
//! the answer, and when the scan is over. Who runs the scan performs each step
//! on the device and reports back.
//!
//! For each protocol the scan first needs the channel, then visits the module
//! identifiers in order. For each module it sets a pass filter for the answer,
//! then sends the request and reads one message, and repeats that until an answer
//! with an identifier arrives or the attempts are used up.

use vstd::prelude::*;
use crate::filter::full_mask;
use crate::passthru::{
    first_rx_message, msg_views, rx_first, MsgView, PassThruMsg, ProtocolKind, RxMessage,
    RxView,
};
use crate::text::{label_of, lowercase_of, parse_protocol, parsed, protocol_label};

verus! {

pub const DEFAULT_SCAN_TIMEOUT_MS: u32 = 200;
pub const DEFAULT_RESPONSE_OFFSET: u32 = 8;
pub const DEFAULT_RETRIES: u32 = 1;

/// The views of a sequence of texts.
pub open spec fn text_views(texts: Seq<String>) -> Seq<Seq<char>> {
    Seq::new(texts.len(), |i: int| texts[i]@)
}

/// The protocols that a list of names stands for, in order; the failure of the
/// first name that stands for none.
pub open spec fn parsed_all(names: Seq<Seq<char>>) -> Result<Seq<ProtocolKind>, Seq<char>>
    decreases names.len(),
{
    if names.len() == 0 {
        Ok(Seq::empty())
    } else {
        match parsed_all(names.drop_last()) {
            Err(text) => Err(text),
            Ok(kinds) => match parsed(lowercase_of(names.last()), names.last()) {
                Ok(kind) => Ok(kinds.push(kind)),
                Err(text) => Err(text),
            },
        }
    }
}

/// The protocols to scan: those of the list where a list is given, else the
/// single one where one is given, else CAN.
pub open spec fn chosen_protocols(list: Option<Seq<Seq<char>>>, single: Option<Seq<char>>) -> Result<
    Seq<ProtocolKind>,
    Seq<char>,
> {
    match list {
        Some(names) => parsed_all(names),
        None => match single {
            Some(name) => match parsed(lowercase_of(name), name) {
                Ok(kind) => Ok(seq![kind]),
                Err(text) => Err(text),
            },
            None => Ok(seq![ProtocolKind::Can]),
        },
    }
}

/// View of a choice of protocols.
pub open spec fn choice_view(r: Result<Vec<ProtocolKind>, String>) -> Result<
    Seq<ProtocolKind>,
    Seq<char>,
> {
    match r {
        Ok(kinds) => Ok(kinds@),
        Err(text) => Err(text@),
    }
}

/// View of an optional list of texts.
pub open spec fn list_view(list: Option<Vec<String>>) -> Option<Seq<Seq<char>>> {
    match list {
        Some(names) => Some(text_views(names@)),
        None => None,
    }
}

/// View of an optional text.
pub open spec fn text_view(text: Option<String>) -> Option<Seq<char>> {
    match text {
        Some(name) => Some(name@),
        None => None,
    }
}

/// Chooses the protocols to scan from what the caller named.
pub fn scan_protocols(list: &Option<Vec<String>>, single: &Option<String>) -> (r: Result<
    Vec<ProtocolKind>,
    String,
>)
    ensures
        choice_view(r) == chosen_protocols(list_view(*list), text_view(*single)),
{
    let mut kinds: Vec<ProtocolKind> = Vec::new();
    match list {
        Some(names) => {
            let mut k: usize = 0;
            assert(text_views(names@).subrange(0, 0) =~= Seq::<Seq<char>>::empty());
            while k < names.len()
                invariant
                    k <= names@.len(),
                    list_view(*list) == Some(text_views(names@)),
                    parsed_all(text_views(names@).subrange(0, k as int)) == Ok::<
                        Seq<ProtocolKind>,
                        Seq<char>,
                    >(kinds@),
                decreases names@.len() - k,
            {
                let ghost before = text_views(names@).subrange(0, k as int);
                let ghost now = text_views(names@).subrange(0, k as int + 1);
                assert(now.drop_last() =~= before);
                assert(now.last() == names@[k as int]@);
                match parse_protocol(names[k].as_str()) {
                    Ok(kind) => {
                        kinds.push(kind);
                    },
                    Err(text) => {
                        proof {
                            assert(parsed_all(now) == Err::<Seq<ProtocolKind>, Seq<char>>(text@));
                            lemma_parsed_all_failure(text_views(names@), k as int + 1);
                        }
                        return Err(text);
                    },
                }
                k += 1;
            }
            assert(text_views(names@).subrange(0, k as int) =~= text_views(names@));
        },
        None => match single {
            Some(name) => match parse_protocol(name.as_str()) {
                Ok(kind) => {
                    kinds.push(kind);
                    assert(kinds@ =~= seq![kind]);
                },
                Err(text) => {
                    return Err(text);
                },
            },
            None => {
                kinds.push(ProtocolKind::Can);
                assert(kinds@ =~= seq![ProtocolKind::Can]);
            },
        },
    }
    Ok(kinds)
}

/// Once the first `n` names fail, the whole list fails in the same way.
pub proof fn lemma_parsed_all_failure(names: Seq<Seq<char>>, n: int)
    requires
        0 <= n <= names.len(),
        parsed_all(names.subrange(0, n)) is Err,
    ensures
        parsed_all(names) == parsed_all(names.subrange(0, n)),
    decreases names.len(),
{
    if n == names.len() {
        assert(names.subrange(0, n) =~= names);
    } else {
        let shorter = names.drop_last();
        assert(shorter.subrange(0, n) =~= names.subrange(0, n));
        lemma_parsed_all_failure(shorter, n);
    }
}

/// What a scan is asked to do.
#[derive(Debug, Clone, PartialEq, Eq)]
pub struct ScanPlan {
    pub protocols: Vec<ProtocolKind>,
    pub module_ids: Vec<u32>,
    pub request: Vec<u8>,
    pub timeout_ms: u32,
    pub response_offset: u32,
    pub retries: u32,
}

/// What a scan is asked to do, with its lists as sequences.
pub struct PlanView {
    pub protocols: Seq<ProtocolKind>,
    pub module_ids: Seq<u32>,
    pub request: Seq<u8>,
    pub timeout_ms: u32,
    pub response_offset: u32,
    pub retries: u32,
}

impl View for ScanPlan {
    type V = PlanView;

    open spec fn view(&self) -> PlanView {
        PlanView {
            protocols: self.protocols@,
            module_ids: self.module_ids@,
            request: self.request@,
            timeout_ms: self.timeout_ms,
            response_offset: self.response_offset,
            retries: self.retries,
        }
    }
}

/// `value`, or `default` where there is none.
pub open spec fn or_default(value: Option<u32>, default: u32) -> u32 {
    match value {
        Some(v) => v,
        None => default,
    }
}

impl ScanPlan {
    /// Puts a plan together. Where no value is given the timeout is 200 ms, the
    /// answer is expected 8 above the request identifier, and a request is
    /// repeated once.
    pub fn new(
        protocols: Vec<ProtocolKind>,
        module_ids: Vec<u32>,
        request: Vec<u8>,
        timeout_ms: Option<u32>,
        response_offset: Option<u32>,
        retries: Option<u32>,
    ) -> (plan: ScanPlan)
        ensures
            plan@ == (PlanView {
                protocols: protocols@,
                module_ids: module_ids@,
                request: request@,
                timeout_ms: or_default(timeout_ms, DEFAULT_SCAN_TIMEOUT_MS),
                response_offset: or_default(response_offset, DEFAULT_RESPONSE_OFFSET),
                retries: or_default(retries, DEFAULT_RETRIES),
            }),
    {
        ScanPlan {
            protocols,
            module_ids,
            request,
            timeout_ms: match timeout_ms {
                Some(v) => v,
                None => DEFAULT_SCAN_TIMEOUT_MS,
            },
            response_offset: match response_offset {
                Some(v) => v,
                None => DEFAULT_RESPONSE_OFFSET,
            },
            retries: match retries {
                Some(v) => v,
                None => DEFAULT_RETRIES,
            },
        }
    }
}

/// Where a scan stands within the work on one protocol.
#[derive(Debug, Clone, Copy, PartialEq, Eq, Structural)]
pub enum ScanStage {
    /// The channel of the protocol is needed.
    Channel,
    /// The pass filter for the answer of the current module is to be set.
    Filter,
    /// The request is to be sent and an answer read; the number counts the
    /// attempts already made for the current module.
    Attempt(u32),
}

/// Where a scan stands.
#[derive(Debug, Clone, Copy, PartialEq, Eq, Structural)]
pub struct ScanCursor {
    pub protocol: usize,
    pub module: usize,
    pub stage: ScanStage,
}

/// What the runner of a scan has to do next.
#[derive(Debug, Clone, Copy, PartialEq, Eq, Structural)]
pub enum ScanAction {
    /// Look up the channel of `protocol`; a scan cannot go on without it.
    Channel { protocol: ProtocolKind },
    /// Set a pass filter on the channel of `protocol`; a scan cannot go on once
    /// this fails.
    Filter { protocol: ProtocolKind, mask_id: u32, pattern_id: u32 },
    /// Send the request to `id`, whether or not the write succeeds read one
    /// message within `timeout_ms`, and report what was read; a scan cannot go
    /// on once the read fails.
    Exchange { protocol: ProtocolKind, id: u32, timeout_ms: u32 },
    /// Nothing: the scan is over.
    Finished,
}

/// The sum of identifier and offset, modulo 2^32.
pub open spec fn response_id(id: u32, offset: u32) -> u32 {
    ((id + offset) % 0x1_0000_0000) as u32
}

/// The cursor at the start of a scan.
pub open spec fn start_cursor() -> ScanCursor {
    ScanCursor { protocol: 0, module: 0, stage: ScanStage::Channel }
}

/// Whether the cursor points at work of the plan, or just past its end. The
/// lists of the plan are no longer than a vector can be.
pub open spec fn cursor_valid(plan: PlanView, cursor: ScanCursor) -> bool {
    &&& plan.protocols.len() <= usize::MAX
    &&& plan.module_ids.len() <= usize::MAX
    &&& cursor.protocol <= plan.protocols.len()
    &&& cursor.protocol == plan.protocols.len() ==> cursor.stage == ScanStage::Channel
    &&& match cursor.stage {
        ScanStage::Channel => cursor.module == 0,
        ScanStage::Filter => cursor.module < plan.module_ids.len(),
        ScanStage::Attempt(made) => cursor.module < plan.module_ids.len() && made <= plan.retries,
    }
}

/// What is to be done at the cursor. Past the end of the plan, and at a cursor
/// that points at no work of the plan, nothing is.
pub open spec fn action_at(plan: PlanView, cursor: ScanCursor) -> ScanAction {
    if cursor.protocol >= plan.protocols.len() {
        ScanAction::Finished
    } else {
        let protocol = plan.protocols[cursor.protocol as int];
        match cursor.stage {
            ScanStage::Channel => ScanAction::Channel { protocol },
            ScanStage::Filter => if cursor.module < plan.module_ids.len() {
                let id = plan.module_ids[cursor.module as int];
                ScanAction::Filter {
                    protocol,
                    mask_id: full_mask(id),
                    pattern_id: response_id(id, plan.response_offset),
                }
            } else {
                ScanAction::Finished
            },
            ScanStage::Attempt(_) => if cursor.module < plan.module_ids.len() {
                ScanAction::Exchange {
                    protocol,
                    id: plan.module_ids[cursor.module as int],
                    timeout_ms: plan.timeout_ms,
                }
            } else {
                ScanAction::Finished
            },
        }
    }
}

/// The cursor at the module after the current one, or at the next protocol when
/// the current module is the last.
pub open spec fn after_module(plan: PlanView, cursor: ScanCursor) -> ScanCursor {
    if cursor.module + 1 < plan.module_ids.len() {
        ScanCursor {
            protocol: cursor.protocol,
            module: (cursor.module + 1) as usize,
            stage: ScanStage::Filter,
        }
    } else {
        ScanCursor {
            protocol: (cursor.protocol + 1) as usize,
            module: 0,
            stage: ScanStage::Channel,
        }
    }
}

/// The cursor after the step at `cursor` has been performed. `answered` says
/// whether the exchange brought an answer; it matters for an exchange only.
///
/// With the channel at hand the first module follows, or the next protocol when
/// there is no module. With the filter set the first attempt follows. After an
/// exchange the next module follows when an answer came or `retries` repeats
/// have been made, else one more attempt.
pub open spec fn cursor_after(plan: PlanView, cursor: ScanCursor, answered: bool) -> ScanCursor {
    match action_at(plan, cursor) {
        ScanAction::Finished => cursor,
        ScanAction::Channel { .. } => if plan.module_ids.len() > 0 {
            ScanCursor { protocol: cursor.protocol, module: 0, stage: ScanStage::Filter }
        } else {
            ScanCursor {
                protocol: (cursor.protocol + 1) as usize,
                module: 0,
                stage: ScanStage::Channel,
            }
        },
        ScanAction::Filter { .. } => ScanCursor {
            protocol: cursor.protocol,
            module: cursor.module,
            stage: ScanStage::Attempt(0),
        },
        ScanAction::Exchange { .. } => {
            let made = match cursor.stage {
                ScanStage::Attempt(made) => made,
                _ => 0,
            };
            if answered || made >= plan.retries {
                after_module(plan, cursor)
            } else {
                ScanCursor {
                    protocol: cursor.protocol,
                    module: cursor.module,
                    stage: ScanStage::Attempt((made + 1) as u32),
                }
            }
        },
    }
}

/// A module that answered.
#[derive(Debug, Clone, PartialEq, Eq)]
pub struct ScanResult {
    pub id: u32,
    pub response: Vec<u8>,
    pub protocol: String,
}

/// A module that answered, with its answer and the protocol name as sequences.
pub struct ResultView {
    pub id: u32,
    pub response: Seq<u8>,
    pub protocol: Seq<char>,
}

impl View for ScanResult {
    type V = ResultView;

    open spec fn view(&self) -> ResultView {
        ResultView { id: self.id, response: self.response@, protocol: self.protocol@ }
    }
}

/// The views of a sequence of results.
pub open spec fn result_views(results: Seq<ScanResult>) -> Seq<ResultView> {
    Seq::new(results.len(), |i: int| results[i]@)
}

/// A scan under way: the plan, the cursor and the modules found so far.
#[derive(Debug, PartialEq, Eq)]
pub struct Scan {
    plan: ScanPlan,
    cursor: ScanCursor,
    results: Vec<ScanResult>,
}

/// A scan under way, with its lists as sequences.
pub struct ScanView {
    pub plan: PlanView,
    pub cursor: ScanCursor,
    pub results: Seq<ResultView>,
}

impl View for Scan {
    type V = ScanView;

    closed spec fn view(&self) -> ScanView {
        ScanView { plan: self.plan@, cursor: self.cursor, results: result_views(self.results@) }
    }
}

/// The result that an answer to the request at the cursor is recorded as: the
/// identifier the request went to, the payload of the answer, and the name of the
/// protocol.
pub open spec fn recorded(plan: PlanView, cursor: ScanCursor, answer: RxView) -> ResultView {
    ResultView {
        id: plan.module_ids[cursor.module as int],
        response: answer.data,
        protocol: label_of(plan.protocols[cursor.protocol as int]),
    }
}

/// The scan after the step at its cursor has been performed and, for an exchange,
/// `reply` has been read. The first message of the reply that holds an identifier
/// is the answer; with an answer the module is recorded.
pub open spec fn scan_after(scan: ScanView, reply: Seq<MsgView>) -> ScanView {
    match action_at(scan.plan, scan.cursor) {
        ScanAction::Exchange { .. } => match rx_first(reply) {
            Some(answer) => ScanView {
                plan: scan.plan,
                cursor: cursor_after(scan.plan, scan.cursor, true),
                results: scan.results.push(recorded(scan.plan, scan.cursor, answer)),
            },
            None => ScanView {
                plan: scan.plan,
                cursor: cursor_after(scan.plan, scan.cursor, false),
                results: scan.results,
            },
        },
        _ => ScanView {
            plan: scan.plan,
            cursor: cursor_after(scan.plan, scan.cursor, false),
            results: scan.results,
        },
    }
}

impl Scan {
    /// The cursor of a scan always points at work of its plan, or just past its
    /// end.
    #[verifier::type_invariant]
    spec fn cursor_in_plan(self) -> bool {
        cursor_valid(self.plan@, self.cursor)
    }

    /// Starts a scan: the cursor at the first protocol, nothing found.
    pub fn new(plan: ScanPlan) -> (scan: Scan)
        ensures
            scan@ == (ScanView { plan: plan@, cursor: start_cursor(), results: Seq::empty() }),
    {
        proof {
            lemma_start_valid(plan);
        }
        let scan = Scan {
            plan,
            cursor: ScanCursor { protocol: 0, module: 0, stage: ScanStage::Channel },
            results: Vec::new(),
        };
        assert(result_views(scan.results@) =~= Seq::<ResultView>::empty());
        scan
    }

    /// The plan of the scan.
    pub fn plan(&self) -> (plan: &ScanPlan)
        ensures
            plan@ == self@.plan,
    {
        &self.plan
    }

    /// Says what is to be done next.
    pub fn action(&self) -> (action: ScanAction)
        ensures
            action == action_at(self@.plan, self@.cursor),
            cursor_valid(self@.plan, self@.cursor),
    {
        proof {
            use_type_invariant(self);
        }
        if self.cursor.protocol >= self.plan.protocols.len() {
            return ScanAction::Finished;
        }
        let protocol = self.plan.protocols[self.cursor.protocol];
        match self.cursor.stage {
            ScanStage::Channel => ScanAction::Channel { protocol },
            ScanStage::Filter => {
                if self.cursor.module < self.plan.module_ids.len() {
                    let id = self.plan.module_ids[self.cursor.module];
                    ScanAction::Filter {
                        protocol,
                        mask_id: crate::filter::id_mask(id),
                        pattern_id: id.wrapping_add(self.plan.response_offset),
                    }
                } else {
                    ScanAction::Finished
                }
            },
            ScanStage::Attempt(_) => {
                if self.cursor.module < self.plan.module_ids.len() {
                    ScanAction::Exchange {
                        protocol,
                        id: self.plan.module_ids[self.cursor.module],
                        timeout_ms: self.plan.timeout_ms,
                    }
                } else {
                    ScanAction::Finished
                }
            },
        }
    }

    /// Takes note that the step named by `action` has been performed, and gives
    /// the scan as it stands after it. `reply` is what an exchange read; for
    /// the other steps it is not looked at.
    pub fn advance(self, reply: &[PassThruMsg]) -> (next: Scan)
        ensures
            next@ == scan_after(self@, msg_views(reply@)),
    {
        proof {
            use_type_invariant(&self);
        }
        let action = self.action();
        let Scan { plan, cursor, mut results } = self;
        let protocols = plan.protocols.len();
        let modules = plan.module_ids.len();
        let next_protocol = ScanCursor {
            protocol: if cursor.protocol < protocols {
                cursor.protocol + 1
            } else {
                cursor.protocol
            },
            module: 0,
            stage: ScanStage::Channel,
        };
        let moved = match action {
            ScanAction::Finished => cursor,
            ScanAction::Channel { .. } => {
                if modules > 0 {
                    ScanCursor { protocol: cursor.protocol, module: 0, stage: ScanStage::Filter }
                } else {
                    next_protocol
                }
            },
            ScanAction::Filter { .. } => ScanCursor {
                protocol: cursor.protocol,
                module: cursor.module,
                stage: ScanStage::Attempt(0),
            },
            ScanAction::Exchange { protocol, id, .. } => {
                let made = match cursor.stage {
                    ScanStage::Attempt(made) => made,
                    _ => 0,
                };
                let answer = first_rx_message(reply);
                let answered = answer.is_some();
                if let Some(rx) = answer {
                    let ghost earlier = result_views(results@);
                    let found = ScanResult {
                        id,
                        response: rx.data,
                        protocol: protocol_label(protocol),
                    };
                    assert(found@ == recorded(plan@, cursor, rx@));
                    results.push(found);
                    assert(result_views(results@) =~= earlier.push(found@));
                }
                if answered || made >= plan.retries {
                    if cursor.module + 1 < modules {
                        ScanCursor {
                            protocol: cursor.protocol,
                            module: cursor.module + 1,
                            stage: ScanStage::Filter,
                        }
                    } else {
                        next_protocol
                    }
                } else {
                    ScanCursor {
                        protocol: cursor.protocol,
                        module: cursor.module,
                        stage: ScanStage::Attempt(made + 1),
                    }
                }
            },
        };
        Scan { plan, cursor: moved, results }
    }

    /// Ends the scan and hands out the modules found, in the order in which they
    /// answered.
    pub fn into_results(self) -> (results: Vec<ScanResult>)
        ensures
            result_views(results@) == self@.results,
    {
        self.results
    }
}

/// Every step leads from a valid cursor to a valid one, and the start of a scan
/// is valid for every plan of a scan.
pub proof fn lemma_cursor_stays_valid(plan: PlanView, cursor: ScanCursor, answered: bool)
    requires
        cursor_valid(plan, cursor),
    ensures
        cursor_valid(plan, start_cursor()),
        cursor_valid(plan, cursor_after(plan, cursor, answered)),
{
}

/// The cursor of a scan is valid from its start on.
pub proof fn lemma_start_valid(plan: ScanPlan)
    ensures
        cursor_valid(plan@, start_cursor()),
{
    assert(plan.protocols.len() == plan@.protocols.len());
    assert(plan.module_ids.len() == plan@.module_ids.len());
}

/// A scan is over exactly when its cursor lies past the last protocol, and a
/// scan that is over stays as it is.
pub proof fn lemma_scan_over(plan: PlanView, cursor: ScanCursor, answered: bool)
    requires
        cursor_valid(plan, cursor),
    ensures
        action_at(plan, cursor) == ScanAction::Finished <==> cursor.protocol
            == plan.protocols.len(),
        action_at(plan, cursor) == ScanAction::Finished ==> cursor_after(plan, cursor, answered)
            == cursor,
{
}

/// Steps that one module takes at most: one for the filter and `retries + 1`
/// exchanges.
pub open spec fn steps_per_module(plan: PlanView) -> int {
    plan.retries + 2
}

/// Steps that one protocol takes at most: one for the channel and those of all
/// modules.
pub open spec fn steps_per_protocol(plan: PlanView) -> int {
    1 + plan.module_ids.len() * steps_per_module(plan)
}

/// Steps that lie behind the cursor within its protocol, where every module
/// before the current one is counted with all its attempts.
pub open spec fn steps_behind(plan: PlanView, cursor: ScanCursor) -> int {
    match cursor.stage {
        ScanStage::Channel => 0,
        ScanStage::Filter => 1 + cursor.module * steps_per_module(plan),
        ScanStage::Attempt(made) => 2 + cursor.module * steps_per_module(plan) + made,
    }
}

/// An upper bound on the steps that a scan still takes from the cursor on.
pub open spec fn steps_left(plan: PlanView, cursor: ScanCursor) -> int {
    (plan.protocols.len() - cursor.protocol) * steps_per_protocol(plan) - steps_behind(
        plan,
        cursor,
    )
}

/// A scan ends: the bound on the steps left is never negative, it is zero exactly
/// when the scan is over, and every step lowers it by at least one. A scan of `p`
/// protocols and `m` modules with `r` retries therefore takes at most
/// `p * (1 + m * (r + 2))` steps.
pub proof fn lemma_scan_ends(plan: PlanView, cursor: ScanCursor, answered: bool)
    requires
        cursor_valid(plan, cursor),
    ensures
        steps_left(plan, cursor) >= 0,
        steps_left(plan, cursor) == 0 <==> action_at(plan, cursor) == ScanAction::Finished,
        action_at(plan, cursor) != ScanAction::Finished ==> steps_left(
            plan,
            cursor_after(plan, cursor, answered),
        ) < steps_left(plan, cursor),
        steps_left(plan, start_cursor()) == plan.protocols.len() * (1 + plan.module_ids.len() * (
        plan.retries + 2)),
{
    let per_module = steps_per_module(plan);
    let per_protocol = steps_per_protocol(plan);
    let modules = plan.module_ids.len() as int;
    let rest = plan.protocols.len() - cursor.protocol;
    let m = cursor.module as int;
    assert(modules * per_module >= 0) by (nonlinear_arith)
        requires
            modules >= 0,
            per_module >= 2,
    ;
    assert((rest - 1) * per_protocol == rest * per_protocol - per_protocol) by (nonlinear_arith);
    assert((m + 1) * per_module == m * per_module + per_module) by (nonlinear_arith);
    if rest == 0 {
        assert(rest * per_protocol == 0) by (nonlinear_arith)
            requires
                rest == 0,
        ;
    } else {
        assert(rest * per_protocol >= per_protocol) by (nonlinear_arith)
            requires
                rest >= 1,
                per_protocol >= 1,
        ;
        if cursor.stage != ScanStage::Channel {
            assert(m * per_module + per_module <= modules * per_module) by (nonlinear_arith)
                requires
                    0 <= m,
                    m + 1 <= modules,
                    per_module >= 2,
            ;
            if m + 1 == modules {
                assert(m * per_module + per_module == modules * per_module) by (nonlinear_arith)
                    requires
                        m + 1 == modules,
                ;
            }
        } else if modules == 0 {
            assert(modules * per_module == 0) by (nonlinear_arith)
                requires
                    modules == 0,
            ;
        }
    }
    assert(0 * per_module == 0) by (nonlinear_arith);
}

/// For one module at most `retries + 1` exchanges are made: an attempt is only
/// ever followed by another while fewer than `retries` repeats have been made and
/// no answer has come.
pub proof fn lemma_attempts_bounded(plan: PlanView, cursor: ScanCursor, answered: bool)
    requires
        cursor_valid(plan, cursor),
        cursor.stage is Attempt,
    ensures
        cursor_after(plan, cursor, answered).stage is Attempt <==> !answered && cursor.stage->0
            < plan.retries,
        cursor_after(plan, cursor, answered).stage is Attempt ==> cursor_after(
            plan,
            cursor,
            answered,
        ).stage->0 == cursor.stage->0 + 1 && cursor_after(plan, cursor, answered).module
            == cursor.module && cursor_after(plan, cursor, answered).protocol == cursor.protocol,
{
}

} // verus!
