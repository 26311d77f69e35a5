//! The decisions of a master session: what its control messages do, which
//! responses a task accepts, and which task failures end the session.
//!
//! The session's loops (waiting for messages, responses and timeouts) run
//! outside the library; they hand each event to these functions and carry
//! out what comes back.
use vstd::prelude::*;

use crate::app::{
    BufferSize, ObjectParseError, ResponseFunction, ResponseHeader, Sequence, Shutdown,
};
use crate::master::association::{without, AssociationMap};
use crate::master::error::{AssociationError, LinkError, TaskError};

verus! {

/// Why a session stops running tasks.
#[derive(Copy, Clone, Debug, PartialEq, Eq, Structural)]
pub enum StateChange {
    Disable,
    Shutdown,
}

/// Why `run` returned.
#[derive(Copy, Clone, Debug, PartialEq, Eq, Structural)]
pub enum RunError {
    State(StateChange),
    Link(LinkError),
}

impl From<Shutdown> for StateChange {
    fn from(_x: Shutdown) -> (s: StateChange) {
        StateChange::Shutdown
    }
}

impl vstd::std_specs::convert::FromSpecImpl<Shutdown> for StateChange {
    open spec fn obeys_from_spec() -> bool {
        true
    }

    open spec fn from_spec(_x: Shutdown) -> StateChange {
        StateChange::Shutdown
    }
}

impl From<StateChange> for RunError {
    fn from(x: StateChange) -> (e: RunError) {
        RunError::State(x)
    }
}

impl vstd::std_specs::convert::FromSpecImpl<StateChange> for RunError {
    open spec fn obeys_from_spec() -> bool {
        true
    }

    open spec fn from_spec(x: StateChange) -> RunError {
        RunError::State(x)
    }
}

impl From<LinkError> for RunError {
    fn from(err: LinkError) -> (e: RunError) {
        RunError::Link(err)
    }
}

impl vstd::std_specs::convert::FromSpecImpl<LinkError> for RunError {
    open spec fn obeys_from_spec() -> bool {
        true
    }

    open spec fn from_spec(err: LinkError) -> RunError {
        RunError::Link(err)
    }
}

impl From<Shutdown> for RunError {
    fn from(_x: Shutdown) -> (e: RunError) {
        RunError::State(StateChange::Shutdown)
    }
}

impl vstd::std_specs::convert::FromSpecImpl<Shutdown> for RunError {
    open spec fn obeys_from_spec() -> bool {
        true
    }

    open spec fn from_spec(_x: Shutdown) -> RunError {
        RunError::State(StateChange::Shutdown)
    }
}

/// A control message to the session; `L` is the decode level.
#[derive(Debug, PartialEq, Eq)]
pub enum MasterMsg<L> {
    EnableCommunication(bool),
    AddAssociation(u16),
    RemoveAssociation(u16),
    SetDecodeLevel(L),
    GetDecodeLevel,
}

/// What the sender of a control message is answered.
#[derive(Debug, PartialEq, Eq)]
pub enum MasterReply<L> {
    /// The message has no answer.
    Nothing,
    /// The outcome of adding an association.
    AssociationAdded(Result<(), AssociationError>),
    /// The current decode level.
    DecodeLevel(L),
}

/// What a read task does with a response.
#[derive(Copy, Clone, Debug, PartialEq, Eq, Structural)]
pub enum ReadResponseAction {
    /// Keep waiting for the awaited response.
    Ignore,
    /// Wait for the next fragment.
    ReadNext,
    /// The read is complete.
    Complete,
}

/// What a read task does with a response fragment: hand it to its
/// association as an unsolicited response, confirm it, and then how the
/// read goes on.
#[derive(Copy, Clone, Debug, PartialEq, Eq, Structural)]
pub struct ReadDecision {
    pub handle_unsolicited: bool,
    pub confirm: bool,
    pub action: ReadResponseAction,
}

/// How a task treats a response fragment, before it reads the objects.
#[derive(Copy, Clone, Debug, PartialEq, Eq, Structural)]
pub enum ResponseCheck {
    /// An unsolicited response: hand it to its association, then keep waiting.
    Unsolicited,
    /// Not the awaited response: keep waiting.
    Ignore,
    /// The awaited response.
    Accept,
}

/// The session's state: whether communication is enabled, the decode level,
/// the associations, and the buffer requests are formatted in.
pub struct MasterSession<L> {
    enabled: bool,
    decode_level: L,
    associations: AssociationMap,
    tx_buffer: Vec<u8>,
}

/// The checks that every task makes first: an unsolicited response is
/// handled apart, and a response from another station or with another
/// sequence number is not the awaited one.
pub open spec fn spec_check_response(
    destination: u16,
    seq: Sequence,
    source: u16,
    header: ResponseHeader,
) -> ResponseCheck {
    if header.function == crate::app::ResponseFunction::UnsolicitedResponse {
        ResponseCheck::Unsolicited
    } else if source != destination {
        ResponseCheck::Ignore
    } else if header.control.seq != seq {
        ResponseCheck::Ignore
    } else {
        ResponseCheck::Accept
    }
}

/// What a read task does with a response, before it reads the objects.
pub open spec fn spec_read_response(
    destination: u16,
    is_first: bool,
    seq: Sequence,
    source: u16,
    header: ResponseHeader,
) -> Result<ResponseCheck, TaskError> {
    let check = spec_check_response(destination, seq, source, header);
    if check != ResponseCheck::Accept {
        Ok(check)
    } else if header.control.fir && !is_first {
        Err(TaskError::UnexpectedFir)
    } else if !header.control.fir && is_first {
        Err(TaskError::NeverReceivedFir)
    } else if !header.control.fin && !header.control.con {
        Err(TaskError::NonFinWithoutCon)
    } else {
        Ok(ResponseCheck::Accept)
    }
}

/// Whether a task's outcome ends the session: only shutdown and link failures
/// do; any other task failure leaves the session running.
pub open spec fn spec_run_result(result: Result<(), TaskError>) -> Result<(), RunError> {
    match result {
        Ok(()) => Ok(()),
        Err(TaskError::Shutdown) => Err(RunError::State(StateChange::Shutdown)),
        Err(TaskError::Link(err)) => Err(RunError::Link(err)),
        Err(_) => Ok(()),
    }
}

impl<L: Copy> MasterSession<L> {
    pub closed spec fn is_enabled(&self) -> bool {
        self.enabled
    }

    pub closed spec fn spec_decode_level(&self) -> L {
        self.decode_level
    }

    /// The addresses of the associations, oldest first.
    pub closed spec fn spec_associations(&self) -> Seq<u16> {
        self.associations@
    }

    /// The sequence number that the next request to `address` takes.
    pub closed spec fn spec_association_seq(&self, address: u16) -> Sequence {
        self.associations.spec_seq(address)
    }

    /// The buffer that requests are formatted in.
    pub closed spec fn spec_tx_buffer(&self) -> Seq<u8> {
        self.tx_buffer@
    }

    /// The associations other than `address` keep their sequence numbers.
    pub open spec fn seqs_kept(&self, other: &Self, address: Option<u16>) -> bool {
        forall|a: u16|
            other.spec_associations().contains(a) && Some(a) != address ==> self.spec_association_seq(
                a,
            ) == other.spec_association_seq(a)
    }

    pub fn new(enabled: bool, decode_level: L, tx_buffer_size: BufferSize<249, 2048>) -> (s: Self)
        ensures
            s.is_enabled() == enabled,
            s.spec_decode_level() == decode_level,
            s.spec_associations() == Seq::<u16>::empty(),
            s.spec_tx_buffer() == Seq::new(tx_buffer_size.spec_value() as nat, |i: int| 0u8),
    {
        Self {
            enabled,
            decode_level,
            associations: AssociationMap::new(),
            tx_buffer: tx_buffer_size.create_buffer(),
        }
    }

    /// The length of the buffer that requests are formatted in.
    pub fn tx_buffer_len(&self) -> (n: usize)
        ensures
            n == self.spec_tx_buffer().len(),
    {
        self.tx_buffer.len()
    }

    /// Takes the sequence number for a request to `destination`: the
    /// association's counter moves on by one. Without that association the
    /// request fails with `NoSuchAssociation`.
    pub fn start_request(&mut self, destination: u16) -> (r: Result<Sequence, TaskError>)
        ensures
            final(self).is_enabled() == old(self).is_enabled(),
            final(self).spec_decode_level() == old(self).spec_decode_level(),
            final(self).spec_associations() == old(self).spec_associations(),
            final(self).spec_tx_buffer() == old(self).spec_tx_buffer(),
            final(self).seqs_kept(&*old(self), Some(destination)),
            old(self).spec_associations().contains(destination) ==> r == Ok::<Sequence, TaskError>(
                old(self).spec_association_seq(destination),
            ) && final(self).spec_association_seq(destination) == old(self).spec_association_seq(
                destination,
            ).spec_next(),
            !old(self).spec_associations().contains(destination) ==> r == Err::<Sequence, TaskError>(
                TaskError::NoSuchAssociation(destination),
            ),
    {
        self.associations.increment_seq(destination)
    }

    pub fn enabled(&self) -> (b: bool)
        ensures
            b == self.is_enabled(),
    {
        self.enabled
    }

    pub fn decode_level(&self) -> (l: L)
        ensures
            l == self.spec_decode_level(),
    {
        self.decode_level
    }

    pub fn associations(&self) -> (m: &AssociationMap)
        ensures
            m@ == self.spec_associations(),
    {
        &self.associations
    }

    /// Carries out a control message; what it names changes, nothing else.
    pub fn process_master_message(&mut self, msg: MasterMsg<L>) -> (r: MasterReply<L>)
        ensures
            match msg {
                MasterMsg::EnableCommunication(enable) => {
                    &&& final(self).is_enabled() == enable
                    &&& final(self).spec_decode_level() == old(self).spec_decode_level()
                    &&& final(self).spec_associations() == old(self).spec_associations()
                    &&& final(self).seqs_kept(&*old(self), None)
                    &&& r is Nothing
                },
                MasterMsg::AddAssociation(address) => {
                    &&& final(self).is_enabled() == old(self).is_enabled()
                    &&& final(self).spec_decode_level() == old(self).spec_decode_level()
                    &&& final(self).seqs_kept(&*old(self), None)
                    &&& if old(self).spec_associations().contains(address) {
                        &&& final(self).spec_associations() == old(self).spec_associations()
                        &&& r == MasterReply::<L>::AssociationAdded(
                            Err(AssociationError::DuplicateAddress(address)),
                        )
                    } else {
                        &&& final(self).spec_associations() == old(
                            self,
                        ).spec_associations().push(address)
                        &&& final(self).spec_association_seq(address).spec_value() == 0
                        &&& r matches MasterReply::AssociationAdded(res) && res is Ok
                    }
                },
                MasterMsg::RemoveAssociation(address) => {
                    &&& final(self).is_enabled() == old(self).is_enabled()
                    &&& final(self).spec_decode_level() == old(self).spec_decode_level()
                    &&& final(self).spec_associations() == without(
                        old(self).spec_associations(),
                        address,
                    )
                    &&& final(self).seqs_kept(&*old(self), Some(address))
                    &&& r is Nothing
                },
                MasterMsg::SetDecodeLevel(level) => {
                    &&& final(self).is_enabled() == old(self).is_enabled()
                    &&& final(self).spec_decode_level() == level
                    &&& final(self).spec_associations() == old(self).spec_associations()
                    &&& final(self).seqs_kept(&*old(self), None)
                    &&& r is Nothing
                },
                MasterMsg::GetDecodeLevel => {
                    &&& final(self).is_enabled() == old(self).is_enabled()
                    &&& final(self).spec_decode_level() == old(self).spec_decode_level()
                    &&& final(self).spec_associations() == old(self).spec_associations()
                    &&& final(self).seqs_kept(&*old(self), None)
                    &&& r == MasterReply::<L>::DecodeLevel(old(self).spec_decode_level())
                },
            },
    {
        match msg {
            MasterMsg::EnableCommunication(enable) => {
                self.enabled = enable;
                MasterReply::Nothing
            },
            MasterMsg::AddAssociation(address) => {
                MasterReply::AssociationAdded(self.associations.register(address))
            },
            MasterMsg::RemoveAssociation(address) => {
                self.associations.remove(address);
                MasterReply::Nothing
            },
            MasterMsg::SetDecodeLevel(level) => {
                self.decode_level = level;
                MasterReply::Nothing
            },
            MasterMsg::GetDecodeLevel => MasterReply::DecodeLevel(self.decode_level),
        }
    }

    /// After a control message: a session that is connected and no longer
    /// enabled must stop.
    pub fn check_enabled(&self, is_connected: bool) -> (r: Result<(), StateChange>)
        ensures
            r == if is_connected && !self.is_enabled() {
                Err::<(), StateChange>(StateChange::Disable)
            } else {
                Ok(())
            },
    {
        if is_connected && !self.enabled {
            return Err(StateChange::Disable);
        }
        Ok(())
    }

    /// Checks a read task's response fragment and decides what follows it.
    /// An unsolicited fragment goes to its association; a fragment from
    /// another station or with another sequence number is ignored. Otherwise
    /// the fragment must start the response exactly when it is the first one,
    /// a fragment that is not the last must ask for a confirmation, the
    /// association must exist, and the objects must parse. An accepted
    /// fragment is confirmed when it asks for it, and ends the read when it is
    /// the last one.
    pub fn process_read_response(
        &self,
        destination: u16,
        is_first: bool,
        seq: Sequence,
        source: u16,
        header: ResponseHeader,
        objects: Result<(), ObjectParseError>,
    ) -> (r: Result<ReadDecision, TaskError>)
        ensures
            match spec_read_response(destination, is_first, seq, source, header) {
                Err(e) => r == Err::<ReadDecision, TaskError>(e),
                Ok(ResponseCheck::Unsolicited) => r == Ok::<ReadDecision, TaskError>(
                    ReadDecision {
                        handle_unsolicited: true,
                        confirm: false,
                        action: ReadResponseAction::Ignore,
                    },
                ),
                Ok(ResponseCheck::Ignore) => r == Ok::<ReadDecision, TaskError>(
                    ReadDecision {
                        handle_unsolicited: false,
                        confirm: false,
                        action: ReadResponseAction::Ignore,
                    },
                ),
                Ok(ResponseCheck::Accept) => if !self.spec_associations().contains(destination) {
                    r == Err::<ReadDecision, TaskError>(TaskError::NoSuchAssociation(destination))
                } else if let Err(e) = objects {
                    r == Err::<ReadDecision, TaskError>(TaskError::MalformedResponse(e))
                } else {
                    r == Ok::<ReadDecision, TaskError>(
                        ReadDecision {
                            handle_unsolicited: false,
                            confirm: header.control.con,
                            action: if header.control.fin {
                                ReadResponseAction::Complete
                            } else {
                                ReadResponseAction::ReadNext
                            },
                        },
                    )
                },
            },
    {
        match validate_read_response(destination, is_first, seq, source, header) {
            Err(e) => return Err(e),
            Ok(ResponseCheck::Accept) => {},
            Ok(ResponseCheck::Unsolicited) => {
                return Ok(
                    ReadDecision {
                        handle_unsolicited: true,
                        confirm: false,
                        action: ReadResponseAction::Ignore,
                    },
                );
            },
            Ok(ResponseCheck::Ignore) => {
                return Ok(
                    ReadDecision {
                        handle_unsolicited: false,
                        confirm: false,
                        action: ReadResponseAction::Ignore,
                    },
                );
            },
        }
        if let Err(e) = self.associations.get(destination) {
            return Err(e);
        }
        if let Err(e) = objects {
            return Err(TaskError::MalformedResponse(e));
        }
        let action = if header.control.fin {
            ReadResponseAction::Complete
        } else {
            ReadResponseAction::ReadNext
        };
        Ok(ReadDecision { handle_unsolicited: false, confirm: header.control.con, action })
    }

    /// How a finished read task ends: a read that succeeded completes the
    /// task, its association told of the success; without the association
    /// it fails with `NoSuchAssociation`. A read that failed fails the task
    /// with that error, and its association, when there is one, is told.
    pub fn read_task_outcome(&self, destination: u16, result: Result<(), TaskError>) -> (o:
        ReadTaskOutcome)
        ensures
            o == match result {
                Ok(()) => if self.spec_associations().contains(destination) {
                    ReadTaskOutcome::Complete
                } else {
                    ReadTaskOutcome::Fail {
                        notify: false,
                        error: TaskError::NoSuchAssociation(destination),
                    }
                },
                Err(e) => ReadTaskOutcome::Fail {
                    notify: self.spec_associations().contains(destination),
                    error: e,
                },
            },
    {
        let present = self.associations.contains(destination);
        match result {
            Ok(()) => if present {
                ReadTaskOutcome::Complete
            } else {
                ReadTaskOutcome::Fail {
                    notify: false,
                    error: TaskError::NoSuchAssociation(destination),
                }
            },
            Err(e) => ReadTaskOutcome::Fail { notify: present, error: e },
        }
    }

    /// Before each wait of a link status task: without its association the
    /// task fails with `NoSuchAssociation`; otherwise it waits.
    pub fn link_status_wait(&self, destination: u16) -> (a: LinkStatusAction)
        ensures
            a == if self.spec_associations().contains(destination) {
                LinkStatusAction::Wait
            } else {
                LinkStatusAction::Complete {
                    fragment: None,
                    result: Err(TaskError::NoSuchAssociation(destination)),
                }
            },
    {
        match self.associations.get(destination) {
            Ok(()) => LinkStatusAction::Wait,
            Err(e) => LinkStatusAction::Complete { fragment: None, result: Err(e) },
        }
    }

    /// What a link status task does on `event`: it completes as
    /// `spec_link_status_outcome` says (a fragment is first handled as while
    /// idle), or waits again as `link_status_wait` says.
    pub fn link_status_step(&self, destination: u16, event: TaskEvent) -> (a: LinkStatusAction)
        ensures
            a == match spec_link_status_outcome(event) {
                None => if self.spec_associations().contains(destination) {
                    LinkStatusAction::Wait
                } else {
                    LinkStatusAction::Complete {
                        fragment: None,
                        result: Err(TaskError::NoSuchAssociation(destination)),
                    }
                },
                Some(result) => LinkStatusAction::Complete {
                    fragment: match event {
                        TaskEvent::Fragment { source: _, header, objects: _ } => Some(
                            spec_idle_fragment(header),
                        ),
                        _ => None,
                    },
                    result,
                },
            },
    {
        match event {
            TaskEvent::LinkLayerMessage => LinkStatusAction::Complete {
                fragment: None,
                result: Ok(()),
            },
            TaskEvent::Fragment { source: _, header, objects: _ } => LinkStatusAction::Complete {
                fragment: Some(idle_fragment(header)),
                result: Err(TaskError::UnexpectedResponseHeaders),
            },
            TaskEvent::Malformed(_) => LinkStatusAction::Complete {
                fragment: None,
                result: Err(TaskError::UnexpectedResponseHeaders),
            },
            _ => match event_failure(event) {
                Some(e) => LinkStatusAction::Complete { fragment: None, result: Err(e) },
                None => self.link_status_wait(destination),
            },
        }
    }

    /// A read task's step on `event`: every task's failures end it; an
    /// accepted fragment is processed, confirmed when it asks for it, and,
    /// unless it is the last, followed by the next one: no longer the first,
    /// with the sequence number that the association's counter hands out,
    /// which then moves on by one.
    pub fn read_task_step(&mut self, destination: u16, state: ReadTaskState, event: TaskEvent) -> (r:
        Result<ReadTaskStep, TaskError>)
        ensures
            final(self).is_enabled() == old(self).is_enabled(),
            final(self).spec_decode_level() == old(self).spec_decode_level(),
            final(self).spec_associations() == old(self).spec_associations(),
            final(self).spec_tx_buffer() == old(self).spec_tx_buffer(),
            final(self).seqs_kept(&*old(self), Some(destination)),
            spec_keeps_counter(r) ==> final(self).spec_association_seq(destination) == old(
                self,
            ).spec_association_seq(destination),
            match event {
                TaskEvent::Fragment { source, header, objects } => match spec_read_response(
                    destination,
                    state.is_first,
                    state.seq,
                    source,
                    header,
                ) {
                    Err(e) => r == Err::<ReadTaskStep, TaskError>(e),
                    Ok(ResponseCheck::Unsolicited) => r == Ok::<ReadTaskStep, TaskError>(
                        ReadTaskStep::HandleUnsolicited,
                    ),
                    Ok(ResponseCheck::Ignore) => r == Ok::<ReadTaskStep, TaskError>(
                        ReadTaskStep::Wait,
                    ),
                    Ok(ResponseCheck::Accept) => if !old(self).spec_associations().contains(
                        destination,
                    ) {
                        r == Err::<ReadTaskStep, TaskError>(
                            TaskError::NoSuchAssociation(destination),
                        )
                    } else if let Err(e) = objects {
                        r == Err::<ReadTaskStep, TaskError>(TaskError::MalformedResponse(e))
                    } else if header.control.fin {
                        r == Ok::<ReadTaskStep, TaskError>(
                            ReadTaskStep::Accept { confirm: header.control.con, next: None },
                        )
                    } else {
                        &&& r == Ok::<ReadTaskStep, TaskError>(
                            ReadTaskStep::Accept {
                                confirm: header.control.con,
                                next: Some(
                                    ReadTaskState {
                                        is_first: false,
                                        seq: old(self).spec_association_seq(destination),
                                    },
                                ),
                            },
                        )
                        &&& final(self).spec_association_seq(destination) == old(
                            self,
                        ).spec_association_seq(destination).spec_next()
                    },
                },
                _ => match spec_event_failure(event) {
                    Some(e) => r == Err::<ReadTaskStep, TaskError>(e),
                    None => r == Ok::<ReadTaskStep, TaskError>(ReadTaskStep::Wait),
                },
            },
    {
        match event {
            TaskEvent::Fragment { source, header, objects } => {
                let d = self.process_read_response(
                    destination,
                    state.is_first,
                    state.seq,
                    source,
                    header,
                    objects,
                );
                match d {
                    Err(e) => Err(e),
                    Ok(d) => {
                        if d.handle_unsolicited {
                            Ok(ReadTaskStep::HandleUnsolicited)
                        } else {
                            match d.action {
                                ReadResponseAction::Ignore => Ok(ReadTaskStep::Wait),
                                ReadResponseAction::Complete => Ok(
                                    ReadTaskStep::Accept { confirm: d.confirm, next: None },
                                ),
                                ReadResponseAction::ReadNext => {
                                    let seq = self.start_request(destination)?;
                                    let next = ReadTaskState { is_first: false, seq };
                                    Ok(ReadTaskStep::Accept { confirm: d.confirm, next: Some(next) })
                                },
                            }
                        }
                    },
                }
            },
            _ => match event_failure(event) {
                Some(e) => Err(e),
                None => Ok(ReadTaskStep::Wait),
            },
        }
    }

    /// A non-read task's step on `event`: `Accept` hands the response to the
    /// task, `Unsolicited` to its association, `Ignore` keeps waiting; an
    /// error ends the task, and its promise gets that same error.
    pub fn non_read_task_step(&self, destination: u16, seq: Sequence, event: TaskEvent) -> (r:
        Result<ResponseCheck, TaskError>)
        ensures
            r == spec_non_read_step(self.spec_associations(), destination, seq, event),
    {
        match event {
            TaskEvent::Fragment { source, header, objects: _ } => {
                match validate_non_read_response(destination, seq, source, header) {
                    Err(e) => Err(e),
                    Ok(ResponseCheck::Accept) => match self.associations.get(destination) {
                        Err(e) => Err(e),
                        Ok(()) => Ok(ResponseCheck::Accept),
                    },
                    Ok(check) => Ok(check),
                }
            },
            _ => match event_failure(event) {
                Some(e) => Err(e),
                None => Ok(ResponseCheck::Ignore),
            },
        }
    }
}

/// The first checks of every task's response.
pub fn check_response(destination: u16, seq: Sequence, source: u16, header: ResponseHeader) -> (r:
    ResponseCheck)
    ensures
        r == spec_check_response(destination, seq, source, header),
{
    if header.function.is_unsolicited() {
        return ResponseCheck::Unsolicited;
    }
    if source != destination {
        return ResponseCheck::Ignore;
    }
    if header.control.seq != seq {
        return ResponseCheck::Ignore;
    }
    ResponseCheck::Accept
}

/// Checks the response to a request that is not a read: beside the first
/// checks, it must fit in one fragment.
pub fn validate_non_read_response(
    destination: u16,
    seq: Sequence,
    source: u16,
    header: ResponseHeader,
) -> (r: Result<ResponseCheck, TaskError>)
    ensures
        r == if spec_check_response(destination, seq, source, header) != ResponseCheck::Accept {
            Ok::<ResponseCheck, TaskError>(spec_check_response(destination, seq, source, header))
        } else if !(header.control.fir && header.control.fin) {
            Err(TaskError::MultiFragmentResponse)
        } else {
            Ok(ResponseCheck::Accept)
        },
{
    let check = check_response(destination, seq, source, header);
    match check {
        ResponseCheck::Accept => {},
        _ => return Ok(check),
    }
    if !header.control.is_fir_and_fin() {
        return Err(TaskError::MultiFragmentResponse);
    }
    Ok(ResponseCheck::Accept)
}

/// The checks of a read task's response fragment that precede the objects.
pub fn validate_read_response(
    destination: u16,
    is_first: bool,
    seq: Sequence,
    source: u16,
    header: ResponseHeader,
) -> (r: Result<ResponseCheck, TaskError>)
    ensures
        r == spec_read_response(destination, is_first, seq, source, header),
{
    let check = check_response(destination, seq, source, header);
    match check {
        ResponseCheck::Accept => {},
        _ => return Ok(check),
    }
    // now do validations
    if header.control.fir && !is_first {
        return Err(TaskError::UnexpectedFir);
    }
    if !header.control.fir && is_first {
        return Err(TaskError::NeverReceivedFir);
    }
    if !header.control.fin && !header.control.con {
        return Err(TaskError::NonFinWithoutCon);
    }
    Ok(ResponseCheck::Accept)
}

/// What a running task waits for and can be woken by.
#[derive(Copy, Clone, Debug, PartialEq, Eq)]
pub enum TaskEvent {
    /// Writing the request, or reading from the link, failed.
    LinkFailed(LinkError),
    /// A whole response fragment from `source`; `objects` tells whether its
    /// object headers parse.
    Fragment { source: u16, header: ResponseHeader, objects: Result<(), ObjectParseError> },
    /// A link-layer message, such as a link status.
    LinkLayerMessage,
    /// A fragment the transport layer could not assemble, with the error it
    /// stands for.
    Malformed(TaskError),
    /// Bytes arrived, but no whole fragment yet.
    Nothing,
    /// A control message was carried out, with this outcome.
    Message(Result<(), StateChange>),
    /// The response timeout passed.
    Timeout,
}

/// The task error that a session state change becomes.
pub open spec fn spec_state_change_error(change: StateChange) -> TaskError {
    match change {
        StateChange::Shutdown => TaskError::Shutdown,
        StateChange::Disable => TaskError::Disabled,
    }
}

fn state_change_error(change: StateChange) -> (e: TaskError)
    ensures
        e == spec_state_change_error(change),
{
    match change {
        StateChange::Shutdown => TaskError::Shutdown,
        StateChange::Disable => TaskError::Disabled,
    }
}

/// The failure that ends any task on `event`, if it is one: a link failure,
/// a malformed fragment, a timeout, or a control message that stops the
/// session.
pub open spec fn spec_event_failure(event: TaskEvent) -> Option<TaskError> {
    match event {
        TaskEvent::LinkFailed(e) => Some(TaskError::Link(e)),
        TaskEvent::Malformed(e) => Some(e),
        TaskEvent::Timeout => Some(TaskError::ResponseTimeout),
        TaskEvent::Message(Err(change)) => Some(spec_state_change_error(change)),
        _ => None,
    }
}

fn event_failure(event: TaskEvent) -> (r: Option<TaskError>)
    ensures
        r == spec_event_failure(event),
{
    match event {
        TaskEvent::LinkFailed(e) => Some(TaskError::Link(e)),
        TaskEvent::Malformed(e) => Some(e),
        TaskEvent::Timeout => Some(TaskError::ResponseTimeout),
        TaskEvent::Message(Err(change)) => Some(state_change_error(change)),
        _ => None,
    }
}

/// How a response fragment that no task awaits is handled while the session
/// is idle: an unsolicited one goes to its association; any other is only
/// reported.
#[derive(Copy, Clone, Debug, PartialEq, Eq, Structural)]
pub enum IdleFragment {
    HandleUnsolicited,
    Warn,
}

pub open spec fn spec_idle_fragment(header: ResponseHeader) -> IdleFragment {
    if header.function == crate::app::ResponseFunction::UnsolicitedResponse {
        IdleFragment::HandleUnsolicited
    } else {
        IdleFragment::Warn
    }
}

/// How a fragment is handled while the session is idle.
pub fn idle_fragment(header: ResponseHeader) -> (r: IdleFragment)
    ensures
        r == spec_idle_fragment(header),
{
    if header.function.is_unsolicited() {
        IdleFragment::HandleUnsolicited
    } else {
        IdleFragment::Warn
    }
}

/// Whether an unsolicited fragment is confirmed: only when its association
/// found it valid and it asks for a confirmation. (A fragment from an
/// address without an association is not handed to any, and so never
/// confirmed.)
pub fn confirm_unsolicited(valid: bool, header: ResponseHeader) -> (b: bool)
    ensures
        b == (valid && header.control.con),
{
    valid && header.control.con
}

/// What a link status task does next.
#[derive(Copy, Clone, Debug, PartialEq, Eq)]
pub enum LinkStatusAction {
    /// Send the link status request (the task's first action).
    SendRequest,
    /// Wait for the next event, with a fresh timeout.
    Wait,
    /// Complete the task, and its promise, with `result`; first, when
    /// `fragment` is given, handle the fragment that arrived as while idle.
    Complete { fragment: Option<IdleFragment>, result: Result<(), TaskError> },
}

/// What a link status task does when it starts: it sends its request.
pub fn link_status_start() -> (a: LinkStatusAction)
    ensures
        a == LinkStatusAction::SendRequest,
{
    LinkStatusAction::SendRequest
}

/// The outcome of a link status task on `event`, when it has one: a link
/// status completes it; a response fragment fails it with
/// `UnexpectedResponseHeaders` (once the fragment has been handled as while
/// idle); a malformed fragment fails it the same way; a link failure, the
/// timeout or a stopping session fails it with their error. Otherwise
/// (`None`) it keeps waiting.
pub open spec fn spec_link_status_outcome(event: TaskEvent) -> Option<Result<(), TaskError>> {
    match event {
        TaskEvent::LinkLayerMessage => Some(Ok(())),
        TaskEvent::Fragment { .. } => Some(Err(TaskError::UnexpectedResponseHeaders)),
        TaskEvent::Malformed(_) => Some(Err(TaskError::UnexpectedResponseHeaders)),
        _ => match spec_event_failure(event) {
            Some(e) => Some(Err(e)),
            None => None,
        },
    }
}

/// How a finished read task ends.
#[derive(Copy, Clone, Debug, PartialEq, Eq, Structural)]
pub enum ReadTaskOutcome {
    /// Tell the association of the success, and complete the task.
    Complete,
    /// Fail the task with `error`; tell the association when `notify`.
    Fail { notify: bool, error: TaskError },
}

/// Where a read task stands: whether the next fragment is the first one, and
/// the sequence number it must carry.
#[derive(Copy, Clone, Debug, PartialEq, Eq, Structural)]
pub struct ReadTaskState {
    pub is_first: bool,
    pub seq: Sequence,
}

/// What a read task does on an event.
#[derive(Copy, Clone, Debug, PartialEq, Eq, Structural)]
pub enum ReadTaskStep {
    /// Keep waiting for the awaited fragment.
    Wait,
    /// Hand the unsolicited fragment to its association, then keep waiting.
    HandleUnsolicited,
    /// Process the fragment's objects, confirm it when `confirm`, then wait
    /// for the next fragment in `next` (with a fresh timeout), or complete
    /// when there is none.
    Accept { confirm: bool, next: Option<ReadTaskState> },
}

/// Whether a read step leaves the association's counter as it was: all
/// but those that wait for another fragment do.
pub open spec fn spec_keeps_counter(r: Result<ReadTaskStep, TaskError>) -> bool {
    match r {
        Ok(ReadTaskStep::Accept { confirm: _, next: Some(_) }) => false,
        _ => true,
    }
}


/// Checks the response to a request that is not a read, within its task:
/// besides the failures every task has, the awaited response must fit in
/// one fragment and its association must still exist. The error returned is
/// the one the task's promise is completed with.
pub open spec fn spec_non_read_step(
    associations: Seq<u16>,
    destination: u16,
    seq: Sequence,
    event: TaskEvent,
) -> Result<ResponseCheck, TaskError> {
    match event {
        TaskEvent::Fragment { source, header, objects } => {
            let check = spec_check_response(destination, seq, source, header);
            if check != ResponseCheck::Accept {
                Ok(check)
            } else if !(header.control.fir && header.control.fin) {
                Err(TaskError::MultiFragmentResponse)
            } else if !associations.contains(destination) {
                Err(TaskError::NoSuchAssociation(destination))
            } else {
                Ok(ResponseCheck::Accept)
            }
        },
        _ => match spec_event_failure(event) {
            Some(e) => Err(e),
            None => Ok(ResponseCheck::Ignore),
        },
    }
}

/// What the outcome of a task means for the session.
pub fn task_result_to_run_result(result: Result<(), TaskError>) -> (r: Result<(), RunError>)
    ensures
        r == spec_run_result(result),
{
    match result {
        Ok(()) => Ok(()),
        Err(err) => match err {
            TaskError::Shutdown => Err(RunError::State(StateChange::Shutdown)),
            TaskError::Link(err) => Err(RunError::Link(err)),
            _ => Ok(()),
        },
    }
}

/// A fragment that a read task accepts comes from the polled station with
/// the awaited sequence number, starts the response exactly when it is the
/// first fragment, and is either the last fragment or asks for a
/// confirmation.
pub proof fn lemma_accepted_fragment(
    destination: u16,
    is_first: bool,
    seq: Sequence,
    source: u16,
    header: ResponseHeader,
)
    requires
        spec_read_response(destination, is_first, seq, source, header) == Ok::<
            ResponseCheck,
            TaskError,
        >(ResponseCheck::Accept),
    ensures
        source == destination,
        header.control.seq == seq,
        header.function == crate::app::ResponseFunction::Response,
        header.control.fir == is_first,
        header.control.fin || header.control.con,
{
}

/// Only shutdown and link failures end a session, shutdown as a state
/// change and a link failure as that failure; a task that fails in any other
/// way, or succeeds, leaves it running.
pub proof fn lemma_only_fatal_errors_stop(result: Result<(), TaskError>)
    ensures
        spec_run_result(result) is Err <==> (result matches Err(e) && (e is Shutdown || e is Link)),
        result == Err::<(), TaskError>(TaskError::Shutdown) ==> spec_run_result(result) == Err::<
            (),
            RunError,
        >(RunError::State(StateChange::Shutdown)),
        result matches Err(TaskError::Link(e)) ==> spec_run_result(result) == Err::<(), RunError>(
            RunError::Link(e),
        ),
{
}

/// How every task sorts a response fragment: an unsolicited response goes
/// to its association whatever station and sequence number the task awaits;
/// a solicited one is the awaited response exactly when it comes from the
/// polled station with the awaited sequence number, and is ignored
/// otherwise.
pub proof fn lemma_response_sorting(
    destination: u16,
    seq: Sequence,
    source: u16,
    header: ResponseHeader,
)
    ensures
        header.function == ResponseFunction::UnsolicitedResponse ==> spec_check_response(
            destination,
            seq,
            source,
            header,
        ) == ResponseCheck::Unsolicited,
        header.function == ResponseFunction::Response ==> spec_check_response(
            destination,
            seq,
            source,
            header,
        ) == if source == destination && header.control.seq == seq {
            ResponseCheck::Accept
        } else {
            ResponseCheck::Ignore
        },
{
}

/// What a read task makes of a response fragment, whatever its source,
/// sequence number and flags: an unsolicited one goes to its association;
/// a solicited one from another station, or with another sequence number,
/// is ignored; the awaited one is refused with `UnexpectedFir` when it
/// starts a response while a later fragment is awaited, with
/// `NeverReceivedFir` when it does not start one while the first is
/// awaited, with `NonFinWithoutCon` when it is not the last and asks for no
/// confirmation, and is accepted otherwise. So the ordinary answer to a
/// read, a single fragment with FIR and FIN, is accepted as the first.
pub proof fn lemma_read_response_outcome(
    destination: u16,
    is_first: bool,
    seq: Sequence,
    source: u16,
    header: ResponseHeader,
)
    ensures
        ({
            let r = spec_read_response(destination, is_first, seq, source, header);
            let c = header.control;
            let awaited = header.function == ResponseFunction::Response && source == destination
                && c.seq == seq;
            &&& header.function == ResponseFunction::UnsolicitedResponse ==> r == Ok::<
                ResponseCheck,
                TaskError,
            >(ResponseCheck::Unsolicited)
            &&& (header.function == ResponseFunction::Response && !awaited) ==> r == Ok::<
                ResponseCheck,
                TaskError,
            >(ResponseCheck::Ignore)
            &&& (awaited && c.fir && !is_first) ==> r == Err::<ResponseCheck, TaskError>(
                TaskError::UnexpectedFir,
            )
            &&& (awaited && !c.fir && is_first) ==> r == Err::<ResponseCheck, TaskError>(
                TaskError::NeverReceivedFir,
            )
            &&& (awaited && c.fir == is_first && !c.fin && !c.con) ==> r == Err::<
                ResponseCheck,
                TaskError,
            >(TaskError::NonFinWithoutCon)
            &&& r == Ok::<ResponseCheck, TaskError>(ResponseCheck::Accept) <==> (awaited && c.fir
                == is_first && (c.fin || c.con))
            &&& (awaited && is_first && c.fir && c.fin) ==> r == Ok::<ResponseCheck, TaskError>(
                ResponseCheck::Accept,
            )
        }),
{
}

/// What a task that is not a read makes of an event. Any event other than a
/// fragment is the same for it as for every task: the response timeout
/// fails it with `ResponseTimeout`, a link failure with that failure, a
/// malformed fragment with its error, a stopping session with `Shutdown` or
/// `Disabled`; anything else leaves it waiting. A fragment is handled as
/// every task sorts it; the awaited one is accepted exactly when it is a
/// single fragment (FIR and FIN) and the association still exists, and
/// refused with `MultiFragmentResponse`, or else `NoSuchAssociation`,
/// otherwise.
pub proof fn lemma_non_read_step_outcome(
    associations: Seq<u16>,
    destination: u16,
    seq: Sequence,
    event: TaskEvent,
)
    ensures
        ({
            let r = spec_non_read_step(associations, destination, seq, event);
            &&& event == TaskEvent::Timeout ==> r == Err::<ResponseCheck, TaskError>(
                TaskError::ResponseTimeout,
            )
            &&& event matches TaskEvent::LinkFailed(e) ==> r == Err::<ResponseCheck, TaskError>(
                TaskError::Link(e),
            )
            &&& event matches TaskEvent::Malformed(e) ==> r == Err::<ResponseCheck, TaskError>(e)
            &&& event == TaskEvent::Message(Err(StateChange::Shutdown)) ==> r == Err::<
                ResponseCheck,
                TaskError,
            >(TaskError::Shutdown)
            &&& event == TaskEvent::Message(Err(StateChange::Disable)) ==> r == Err::<
                ResponseCheck,
                TaskError,
            >(TaskError::Disabled)
            &&& (event == TaskEvent::Message(Ok(())) || event == TaskEvent::Nothing || event
                == TaskEvent::LinkLayerMessage) ==> r == Ok::<ResponseCheck, TaskError>(
                ResponseCheck::Ignore,
            )
            &&& event matches TaskEvent::Fragment { source, header, objects: _ } ==> {
                let c = header.control;
                let awaited = header.function == ResponseFunction::Response && source
                    == destination && c.seq == seq;
                &&& header.function == ResponseFunction::UnsolicitedResponse ==> r == Ok::<
                    ResponseCheck,
                    TaskError,
                >(ResponseCheck::Unsolicited)
                &&& (header.function == ResponseFunction::Response && !awaited) ==> r == Ok::<
                    ResponseCheck,
                    TaskError,
                >(ResponseCheck::Ignore)
                &&& (awaited && !(c.fir && c.fin)) ==> r == Err::<ResponseCheck, TaskError>(
                    TaskError::MultiFragmentResponse,
                )
                &&& (awaited && c.fir && c.fin && !associations.contains(destination)) ==> r
                    == Err::<ResponseCheck, TaskError>(TaskError::NoSuchAssociation(destination))
                &&& r == Ok::<ResponseCheck, TaskError>(ResponseCheck::Accept) <==> (awaited
                    && c.fir && c.fin && associations.contains(destination))
            }
        }),
{
}

/// The failures that end every task, a read as well as any other: the
/// response timeout ends it with `ResponseTimeout`, a link failure with that
/// failure, a malformed fragment with its error, a stopping session with
/// `Shutdown` or `Disabled`; a fragment, a link-layer message, a completed
/// control message or bytes without a whole fragment end no task by
/// themselves.
pub proof fn lemma_task_failures(event: TaskEvent)
    ensures
        event == TaskEvent::Timeout ==> spec_event_failure(event) == Some(
            TaskError::ResponseTimeout,
        ),
        event matches TaskEvent::LinkFailed(e) ==> spec_event_failure(event) == Some(
            TaskError::Link(e),
        ),
        event matches TaskEvent::Malformed(e) ==> spec_event_failure(event) == Some(e),
        event == TaskEvent::Message(Err(StateChange::Shutdown)) ==> spec_event_failure(event)
            == Some(TaskError::Shutdown),
        event == TaskEvent::Message(Err(StateChange::Disable)) ==> spec_event_failure(event)
            == Some(TaskError::Disabled),
        (event == TaskEvent::Message(Ok(())) || event == TaskEvent::Nothing || event
            == TaskEvent::LinkLayerMessage || event is Fragment) ==> spec_event_failure(event)
            is None,
{
}

/// How a link status task ends: a link-layer message (the link status)
/// completes it with success; a response fragment, handled first as while
/// idle, or a malformed one fails it with `UnexpectedResponseHeaders`; a link
/// failure, the timeout or a stopping session fails it with their error;
/// bytes without a whole fragment, or a completed control message, leave it
/// waiting. While idle, an unsolicited fragment goes to its association and
/// any other is only reported.
pub proof fn lemma_link_status_outcome(event: TaskEvent, header: ResponseHeader)
    ensures
        event == TaskEvent::LinkLayerMessage ==> spec_link_status_outcome(event) == Some(
            Ok::<(), TaskError>(()),
        ),
        (event is Fragment || event is Malformed) ==> spec_link_status_outcome(event) == Some(
            Err::<(), TaskError>(TaskError::UnexpectedResponseHeaders),
        ),
        event matches TaskEvent::LinkFailed(e) ==> spec_link_status_outcome(event) == Some(
            Err::<(), TaskError>(TaskError::Link(e)),
        ),
        event == TaskEvent::Timeout ==> spec_link_status_outcome(event) == Some(
            Err::<(), TaskError>(TaskError::ResponseTimeout),
        ),
        event == TaskEvent::Message(Err(StateChange::Shutdown)) ==> spec_link_status_outcome(event)
            == Some(Err::<(), TaskError>(TaskError::Shutdown)),
        event == TaskEvent::Message(Err(StateChange::Disable)) ==> spec_link_status_outcome(event)
            == Some(Err::<(), TaskError>(TaskError::Disabled)),
        (event == TaskEvent::Nothing || event == TaskEvent::Message(Ok(())))
            ==> spec_link_status_outcome(event) is None,
        header.function == ResponseFunction::UnsolicitedResponse ==> spec_idle_fragment(header)
            == IdleFragment::HandleUnsolicited,
        header.function == ResponseFunction::Response ==> spec_idle_fragment(header)
            == IdleFragment::Warn,
{
}

/// A read step moves the association's counter on only when it goes on to
/// another fragment; waiting, an unsolicited fragment, the last fragment and
/// every failure leave it as it was.
pub proof fn lemma_counter_moves_only_for_next_fragment(r: Result<ReadTaskStep, TaskError>)
    ensures
        !spec_keeps_counter(r) <==> (r matches Ok(ReadTaskStep::Accept { confirm: _, next }) && next
            is Some),
{
}

} // verus!
