//! The alert request, its acknowledgement, and the status codes they carry.

use vstd::prelude::*;
use vstd::string::*;

verus! {

/// The four characters that mark the subject of an acknowledgement.
pub open spec fn ack_prefix() -> Seq<char> {
    seq!['a', 'c', 'k', '-']
}

/// Whether a subject already carries the acknowledgement prefix.
pub open spec fn is_acked(subject: Seq<char>) -> bool {
    subject.len() >= 4 && subject.subrange(0, 4) == ack_prefix()
}

/// The subject of the acknowledgement of `subject`: prefixed, unless it is
/// prefixed already.
pub open spec fn ack_subject(subject: Seq<char>) -> Seq<char> {
    if is_acked(subject) {
        subject
    } else {
        ack_prefix() + subject
    }
}

/// Acknowledging twice names the same subject as acknowledging once.
pub proof fn lemma_ack_subject_idempotent(subject: Seq<char>)
    ensures
        is_acked(ack_subject(subject)),
        ack_subject(ack_subject(subject)) == ack_subject(subject),
{
    if !is_acked(subject) {
        assert((ack_prefix() + subject).subrange(0, 4) =~= ack_prefix());
    }
}

/// Whether `subject` starts with `ack-`.
pub fn has_ack_prefix(subject: &str) -> (yes: bool)
    ensures
        yes == is_acked(subject@),
{
    if subject.unicode_len() < 4 {
        return false;
    }
    let yes = subject.get_char(0) == 'a' && subject.get_char(1) == 'c' && subject.get_char(2)
        == 'k' && subject.get_char(3) == '-';
    proof {
        let head = subject@.subrange(0, 4);
        if yes {
            assert(head =~= ack_prefix());
        } else {
            assert(head[0] == subject@[0] && head[1] == subject@[1] && head[2] == subject@[2]
                && head[3] == subject@[3]);
        }
    }
    yes
}

/// Outcome carried by an acknowledgement. On the wire `Failure` is 0 and
/// `Success` is 1.
#[derive(Clone, Copy, Debug, PartialEq, Eq, Structural)]
pub enum ICUStatus {
    Failure,
    Success,
}

impl ICUStatus {
    pub open spec fn wire_code(self) -> int {
        match self {
            ICUStatus::Failure => 0,
            ICUStatus::Success => 1,
        }
    }

    /// The number that stands for this status on the wire.
    pub fn code(&self) -> (code: i32)
        ensures
            code == self.wire_code(),
    {
        match self {
            ICUStatus::Failure => 0,
            ICUStatus::Success => 1,
        }
    }

    /// The status that `code` stands for, if it stands for one.
    pub fn from_code(code: i32) -> (status: Option<ICUStatus>)
        ensures
            status matches Some(s) ==> s.wire_code() == code,
            status is None <==> code != 0 && code != 1,
    {
        if code == 0 {
            Some(ICUStatus::Failure)
        } else if code == 1 {
            Some(ICUStatus::Success)
        } else {
            None
        }
    }
}

/// Status code of a remote call. The variants are numbered from 0 in the
/// order in which they are listed.
#[derive(Clone, Copy, Debug, PartialEq, Eq, Structural)]
pub enum Status {
    Okay,
    Cancelled,
    Unknown,
    InvalidArgument,
    DeadlineExceeded,
    NotFound,
    AlreadyExists,
    PermissionDenied,
    ResourceExhausted,
    FailedPrecondition,
    Aborted,
    OutOfRange,
    Unimplemented,
    Internal,
    Unavailable,
    DataLoss,
    Unauthenticated,
}

impl Status {
    pub open spec fn wire_code(self) -> int {
        match self {
            Status::Okay => 0,
            Status::Cancelled => 1,
            Status::Unknown => 2,
            Status::InvalidArgument => 3,
            Status::DeadlineExceeded => 4,
            Status::NotFound => 5,
            Status::AlreadyExists => 6,
            Status::PermissionDenied => 7,
            Status::ResourceExhausted => 8,
            Status::FailedPrecondition => 9,
            Status::Aborted => 10,
            Status::OutOfRange => 11,
            Status::Unimplemented => 12,
            Status::Internal => 13,
            Status::Unavailable => 14,
            Status::DataLoss => 15,
            Status::Unauthenticated => 16,
        }
    }

    /// The number of this status code.
    pub fn code(&self) -> (code: i32)
        ensures
            code == self.wire_code(),
    {
        match self {
            Status::Okay => 0,
            Status::Cancelled => 1,
            Status::Unknown => 2,
            Status::InvalidArgument => 3,
            Status::DeadlineExceeded => 4,
            Status::NotFound => 5,
            Status::AlreadyExists => 6,
            Status::PermissionDenied => 7,
            Status::ResourceExhausted => 8,
            Status::FailedPrecondition => 9,
            Status::Aborted => 10,
            Status::OutOfRange => 11,
            Status::Unimplemented => 12,
            Status::Internal => 13,
            Status::Unavailable => 14,
            Status::DataLoss => 15,
            Status::Unauthenticated => 16,
        }
    }

    /// The status code with number `code`; numbers outside `0..=16` are
    /// `Unknown`.
    pub fn from_code(code: i32) -> (status: Status)
        ensures
            0 <= code <= 16 ==> status.wire_code() == code,
            !(0 <= code <= 16) ==> status == Status::Unknown,
    {
        match code {
            0 => Status::Okay,
            1 => Status::Cancelled,
            2 => Status::Unknown,
            3 => Status::InvalidArgument,
            4 => Status::DeadlineExceeded,
            5 => Status::NotFound,
            6 => Status::AlreadyExists,
            7 => Status::PermissionDenied,
            8 => Status::ResourceExhausted,
            9 => Status::FailedPrecondition,
            10 => Status::Aborted,
            11 => Status::OutOfRange,
            12 => Status::Unimplemented,
            13 => Status::Internal,
            14 => Status::Unavailable,
            15 => Status::DataLoss,
            16 => Status::Unauthenticated,
            _ => Status::Unknown,
        }
    }
}

/// Why an acknowledgement reports failure.
#[derive(Clone, Debug, PartialEq, Eq)]
pub struct ICUError {
    pub code: Status,
    pub message: String,
}

/// An alert request.
#[derive(Clone, Debug, PartialEq, Eq)]
pub struct Event {
    /// Category of the alert.
    pub subject: String,
    /// Free-form text.
    pub payload: String,
    /// Whether an acknowledgement is asked for.
    pub reply: bool,
}

impl Event {
    pub fn new(subject: String, payload: String, reply: bool) -> (event: Self)
        ensures
            event.subject == subject,
            event.payload == payload,
            event.reply == reply,
    {
        Self { subject, payload, reply }
    }
}

/// The answer to an alert request.
#[derive(Clone, Debug, PartialEq, Eq)]
pub struct EventAck {
    pub subject: String,
    pub payload: String,
    pub status: ICUStatus,
}

impl EventAck {
    /// Builds the acknowledgement of `subject`. The subject gets the `ack-`
    /// prefix unless it has it already. With an error the acknowledgement
    /// reports failure and carries the error's message; without one it
    /// reports success and carries `payload`. The outcome is decided by
    /// `error` alone, whatever `status` proposes.
    pub fn new(subject: String, payload: String, status: ICUStatus, error: Option<ICUError>) -> (ack:
        Self)
        ensures
            ack.subject@ == ack_subject(subject@),
            error matches Some(e) ==> ack.status == ICUStatus::Failure && ack.payload@
                == e.message@,
            error is None ==> ack.status == ICUStatus::Success && ack.payload@ == payload@,
    {
        let subject = if has_ack_prefix(subject.as_str()) {
            subject
        } else {
            proof {
                reveal_strlit("ack-");
                assert("ack-"@ =~= ack_prefix());
            }
            String::from_str("ack-").concat(subject.as_str())
        };
        match error {
            Some(e) => Self { subject, payload: e.message, status: ICUStatus::Failure },
            None => Self { subject, payload, status: ICUStatus::Success },
        }
    }
}

} // verus!
