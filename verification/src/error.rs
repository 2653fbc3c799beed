//! The failures of the startup call: how a status code is classified, and the
//! text that explains each kind.

use vstd::prelude::*;
use vstd::std_specs::convert::FromSpecImpl;
use vstd::string::StringExecFns;

verus! {

/// Where the status codes of Windows Sockets are documented.
pub const ERR_CODES: &'static str =
    "https://docs.microsoft.com/en-us/windows/win32/winsock/windows-sockets-error-codes-2";

/// Where the startup call is documented.
pub const GENERAL: &'static str =
    "https://docs.microsoft.com/en-us/windows/win32/api/winsock/nf-winsock-wsastartup";

/// What [`WsaError::SystemNotReady`] means.
pub const SYSTEM_NOT_READY: &'static str =
    "The underlying network subsystem is not ready for network communication.";

/// What [`WsaError::VersionNotSupported`] means.
pub const VERSION_NOT_SUPPORTED: &'static str =
    "The version of Windows Sockets support requested is not provided by this particular Windows Sockets implementation.";

/// What [`WsaError::OperationInProgress`] means.
pub const OPERATION_IN_PROGRESS: &'static str =
    "A blocking Windows Sockets 1.1 operation is in progress.";

/// What [`WsaError::TasksLimitReached`] means.
pub const TASKS_LIMIT_REACHED: &'static str =
    "A limit on the number of tasks supported by the Windows Sockets implementation has been reached.";

/// What [`WsaError::InvalidData`] means.
pub const INVALID_DATA: &'static str = "The lpWSAData parameter is not a valid pointer.";

/// What [`WsaError::UnknownError`] means.
pub const UNKNOWN_ERROR: &'static str = "Some unknown error has occurred, it's time to panic.";

/// A failure reported by the startup call.
#[derive(Debug, Clone, Copy, PartialEq, Eq, Structural)]
pub enum WsaError {
    /// The network subsystem is not ready for network communication.
    SystemNotReady,
    /// The requested version is not provided by the implementation.
    VersionNotSupported,
    /// A blocking version 1.1 operation is in progress.
    OperationInProgress,
    /// The implementation supports no more tasks.
    TasksLimitReached,
    /// The record handed to the call was not a valid pointer.
    InvalidData,
    /// Any status that has no kind of its own.
    UnknownError,
}

/// The kind of failure that a status code of the startup call stands for.
pub open spec fn classify(code: i32) -> WsaError {
    if code == 10091 {
        WsaError::SystemNotReady
    } else if code == 10092 {
        WsaError::VersionNotSupported
    } else if code == 10036 {
        WsaError::OperationInProgress
    } else if code == 10067 {
        WsaError::TasksLimitReached
    } else if code == 10014 {
        WsaError::InvalidData
    } else {
        WsaError::UnknownError
    }
}

/// `part` stands in `text` from position `at` on.
pub open spec fn occurs_at(part: Seq<char>, text: Seq<char>, at: int) -> bool {
    &&& 0 <= at
    &&& at + part.len() <= text.len()
    &&& text.subrange(at, at + part.len()) == part
}

/// `part` stands somewhere in `text`, unbroken.
pub open spec fn occurs_in(part: Seq<char>, text: Seq<char>) -> bool {
    exists|at: int| occurs_at(part, text, at)
}

impl FromSpecImpl<i32> for WsaError {
    open spec fn obeys_from_spec() -> bool {
        true
    }

    open spec fn from_spec(err_code: i32) -> Self {
        classify(err_code)
    }
}

impl From<i32> for WsaError {
    /// Classifies a status code; every code has a kind.
    fn from(err_code: i32) -> (kind: Self) {
        match err_code {
            10091 => WsaError::SystemNotReady,
            10092 => WsaError::VersionNotSupported,
            10036 => WsaError::OperationInProgress,
            10067 => WsaError::TasksLimitReached,
            10014 => WsaError::InvalidData,
            _ => WsaError::UnknownError,
        }
    }
}

impl WsaError {
    /// The sentence that says what went wrong.
    pub open spec fn explanation(self) -> Seq<char> {
        match self {
            WsaError::SystemNotReady => SYSTEM_NOT_READY@,
            WsaError::VersionNotSupported => VERSION_NOT_SUPPORTED@,
            WsaError::OperationInProgress => OPERATION_IN_PROGRESS@,
            WsaError::TasksLimitReached => TASKS_LIMIT_REACHED@,
            WsaError::InvalidData => INVALID_DATA@,
            WsaError::UnknownError => UNKNOWN_ERROR@,
        }
    }

    /// The address at which this kind of failure is documented: the entry of
    /// its status code, or the page of the startup call where the kind has no
    /// code of its own.
    pub open spec fn reference(self) -> Seq<char> {
        match self {
            WsaError::SystemNotReady => ERR_CODES@ + "/#WSASYSNOTREADY"@,
            WsaError::VersionNotSupported => ERR_CODES@ + "/#WSAVERNOTSUPPORTED"@,
            WsaError::OperationInProgress => ERR_CODES@ + "/#WSAEINPROGRESS"@,
            WsaError::TasksLimitReached => ERR_CODES@ + "/#WSAEPROCLIM"@,
            WsaError::InvalidData => ERR_CODES@ + "/#WSAEFAULT"@,
            WsaError::UnknownError => GENERAL@,
        }
    }

    /// The whole message: the explanation on the first line, the pointer to
    /// the quoted reference on the second.
    pub open spec fn description(self) -> Seq<char> {
        self.explanation() + "\n"@ + "see "@ + "\""@ + self.reference() + "\" "@
            + "for more information"@ + "\n"@
    }

    fn explanation_str(&self) -> (sentence: &'static str)
        ensures
            sentence@ == self.explanation(),
    {
        match self {
            WsaError::SystemNotReady => SYSTEM_NOT_READY,
            WsaError::VersionNotSupported => VERSION_NOT_SUPPORTED,
            WsaError::OperationInProgress => OPERATION_IN_PROGRESS,
            WsaError::TasksLimitReached => TASKS_LIMIT_REACHED,
            WsaError::InvalidData => INVALID_DATA,
            WsaError::UnknownError => UNKNOWN_ERROR,
        }
    }

    fn reference_string(&self) -> (address: String)
        ensures
            address@ == self.reference(),
    {
        match self {
            WsaError::SystemNotReady => String::from_str(ERR_CODES).concat("/#WSASYSNOTREADY"),
            WsaError::VersionNotSupported => String::from_str(ERR_CODES).concat(
                "/#WSAVERNOTSUPPORTED",
            ),
            WsaError::OperationInProgress => String::from_str(ERR_CODES).concat("/#WSAEINPROGRESS"),
            WsaError::TasksLimitReached => String::from_str(ERR_CODES).concat("/#WSAEPROCLIM"),
            WsaError::InvalidData => String::from_str(ERR_CODES).concat("/#WSAEFAULT"),
            WsaError::UnknownError => String::from_str(GENERAL),
        }
    }

    /// The message for this kind of failure, for logs and diagnostics.
    pub fn describe(&self) -> (text: String)
        ensures
            text@ == self.description(),
    {
        let reference = self.reference_string();
        let mut text = String::from_str(self.explanation_str());
        text.append("\n");
        text.append("see ");
        text.append("\"");
        text.append(reference.as_str());
        text.append("\" ");
        text.append("for more information");
        text.append("\n");
        text
    }
}

/// Each of the five documented codes has its own kind, no two of them share
/// one, and every other code is unknown.
pub proof fn lemma_classify_table(code: i32)
    ensures
        classify(code) == WsaError::SystemNotReady <==> code == 10091,
        classify(code) == WsaError::VersionNotSupported <==> code == 10092,
        classify(code) == WsaError::OperationInProgress <==> code == 10036,
        classify(code) == WsaError::TasksLimitReached <==> code == 10067,
        classify(code) == WsaError::InvalidData <==> code == 10014,
        classify(code) == WsaError::UnknownError <==> code != 10091 && code != 10092 && code
            != 10036 && code != 10067 && code != 10014,
{
}

/// The message of every kind of failure has an explanation that is not empty,
/// the words "see " in front of the reference, and the words
/// "for more information" behind it.
pub proof fn lemma_description_points_to_reference(kind: WsaError)
    ensures
        kind.explanation().len() > 0,
        kind.reference().len() > 0,
        occurs_at(kind.explanation(), kind.description(), 0),
        occurs_in("see "@, kind.description()),
        occurs_in(kind.reference(), kind.description()),
        occurs_in("for more information"@, kind.description()),
{
    reveal_strlit("The underlying network subsystem is not ready for network communication.");
    reveal_strlit(
        "The version of Windows Sockets support requested is not provided by this particular Windows Sockets implementation.",
    );
    reveal_strlit("A blocking Windows Sockets 1.1 operation is in progress.");
    reveal_strlit(
        "A limit on the number of tasks supported by the Windows Sockets implementation has been reached.",
    );
    reveal_strlit("The lpWSAData parameter is not a valid pointer.");
    reveal_strlit("Some unknown error has occurred, it's time to panic.");
    reveal_strlit(
        "https://docs.microsoft.com/en-us/windows/win32/winsock/windows-sockets-error-codes-2",
    );
    reveal_strlit(
        "https://docs.microsoft.com/en-us/windows/win32/api/winsock/nf-winsock-wsastartup",
    );
    let text = kind.description();
    let head = kind.explanation() + "\n"@;
    let pointer = head + "see "@ + "\""@;
    let tail = pointer + kind.reference() + "\" "@;
    lemma_occurs_between(
        text,
        Seq::empty(),
        kind.explanation(),
        "\n"@ + "see "@ + "\""@ + kind.reference() + "\" "@ + "for more information"@ + "\n"@,
    );
    lemma_occurs_between(
        text,
        head,
        "see "@,
        "\""@ + kind.reference() + "\" "@ + "for more information"@ + "\n"@,
    );
    lemma_occurs_between(
        text,
        pointer,
        kind.reference(),
        "\" "@ + "for more information"@ + "\n"@,
    );
    lemma_occurs_between(text, tail, "for more information"@, "\n"@);
}

/// A text that is put together from three parts holds the middle one, right
/// behind the first.
proof fn lemma_occurs_between(
    text: Seq<char>,
    before: Seq<char>,
    part: Seq<char>,
    after: Seq<char>,
)
    requires
        text =~= before + part + after,
    ensures
        occurs_at(part, text, before.len() as int),
        occurs_in(part, text),
{
    let at = before.len() as int;
    assert(text.subrange(at, at + part.len()) =~= part);
}

} // verus!
