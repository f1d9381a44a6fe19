//! What the platform reported of its registry calls, read into results. The
//! calls themselves are made by the caller; here it is decided what they
//! came to.

use crate::checks::Reading;
use crate::fixes::WriteFault;
use crate::text::joined;
use vstd::prelude::*;
use vstd::string::StrSliceExecFns;

verus! {

/// The status with which a registry call reports success.
pub const ERROR_SUCCESS: u32 = 0;

/// The status with which a registry call reports that there is no such key
/// or value.
pub const ERROR_FILE_NOT_FOUND: u32 = 2;

/// The status with which a registry call reports that access was denied.
pub const ERROR_ACCESS_DENIED: u32 = 5;

/// The call that did not succeed.
#[derive(Debug, Clone, Copy, PartialEq, Eq, Structural)]
pub enum RegistryStep {
    OpenForReading,
    OpenForWriting,
    QueryValue,
    QuerySize,
    QueryString,
    SetValue,
}

/// A registry call that did not succeed: which call, on which key or
/// value, and the status it reported.
#[derive(Debug, Clone)]
pub struct RegistryError {
    pub step: RegistryStep,
    pub name: String,
    pub status: u32,
}

/// A `RegistryError` as contracts see it, with texts as sequences of characters.
pub struct RegistryErrorView {
    pub step: RegistryStep,
    pub name: Seq<char>,
    pub status: u32,
}

impl View for RegistryError {
    type V = RegistryErrorView;

    open spec fn view(&self) -> RegistryErrorView {
        RegistryErrorView { step: self.step, name: self.name@, status: self.status }
    }
}

/// What is said of a call that did not succeed, before the name of the key
/// or value.
pub open spec fn step_phrase(step: RegistryStep) -> Seq<char> {
    match step {
        RegistryStep::OpenForReading => "Failed to open registry key: "@,
        RegistryStep::OpenForWriting => "Failed to open registry key for writing: "@,
        RegistryStep::QueryValue => "Failed to read registry value: "@,
        RegistryStep::QuerySize => "Failed to query registry value size: "@,
        RegistryStep::QueryString => "Failed to read registry string value: "@,
        RegistryStep::SetValue => "Failed to write registry value: "@,
    }
}

/// The one line that tells the user what went wrong.
pub open spec fn registry_message(e: RegistryErrorView) -> Seq<char> {
    step_phrase(e.step) + e.name
}

/// The fault that a status stands for: access denied, no such key, or any
/// other failure.
pub open spec fn fault_of(status: u32) -> WriteFault {
    if status == ERROR_ACCESS_DENIED {
        WriteFault::AccessDenied
    } else if status == ERROR_FILE_NOT_FOUND {
        WriteFault::KeyNotFound
    } else {
        WriteFault::Failed
    }
}

impl RegistryError {
    /// The one line that tells the user what went wrong.
    pub fn message(&self) -> (text: String)
        ensures
            text@ == registry_message(self@),
    {
        let phrase = match self.step {
            RegistryStep::OpenForReading => "Failed to open registry key: ",
            RegistryStep::OpenForWriting => "Failed to open registry key for writing: ",
            RegistryStep::QueryValue => "Failed to read registry value: ",
            RegistryStep::QuerySize => "Failed to query registry value size: ",
            RegistryStep::QueryString => "Failed to read registry string value: ",
            RegistryStep::SetValue => "Failed to write registry value: ",
        };
        joined(phrase, self.name.as_str())
    }

    /// The fault that the mutation subsystem reports for this failure.
    pub fn fault(&self) -> (fault: WriteFault)
        ensures
            fault == fault_of(self.status),
    {
        if self.status == ERROR_ACCESS_DENIED {
            WriteFault::AccessDenied
        } else if self.status == ERROR_FILE_NOT_FOUND {
            WriteFault::KeyNotFound
        } else {
            WriteFault::Failed
        }
    }
}

/// What the platform reported of the attempt to read a number.
#[derive(Debug, Clone, Copy, PartialEq, Eq, Structural)]
pub enum DwordQuery {
    /// The key did not open.
    NotOpened { status: u32 },
    /// The key opened and the value was queried.
    Queried { status: u32, data: u32 },
}

/// What the platform reported of the attempt to write a number.
#[derive(Debug, Clone, Copy, PartialEq, Eq, Structural)]
pub enum DwordWrite {
    /// The key did not open.
    NotOpened { status: u32 },
    /// The key opened and the value was set.
    Written { status: u32 },
}

/// What the platform reported of the attempt to read a text.
#[derive(Debug, Clone)]
pub enum StringQuery {
    /// The key did not open.
    NotOpened { status: u32 },
    /// The key opened, the size of the text could not be had.
    NoSize { status: u32 },
    /// The text was queried into a buffer of 16-bit units.
    Queried { status: u32, buffer: Vec<u16> },
}

/// A `StringQuery` as contracts see it, with texts as sequences of characters.
pub enum StringQueryView {
    NotOpened { status: u32 },
    NoSize { status: u32 },
    Queried { status: u32, buffer: Seq<u16> },
}

impl View for StringQuery {
    type V = StringQueryView;

    open spec fn view(&self) -> StringQueryView {
        match *self {
            StringQuery::NotOpened { status } => StringQueryView::NotOpened { status },
            StringQuery::NoSize { status } => StringQueryView::NoSize { status },
            StringQuery::Queried { status, buffer } => StringQueryView::Queried {
                status,
                buffer: buffer@,
            },
        }
    }
}

/// The failure with the given parts.
pub open spec fn failure(step: RegistryStep, name: Seq<char>, status: u32) -> RegistryErrorView {
    RegistryErrorView { step, name, status }
}

/// The failure with the given parts.
fn failed(step: RegistryStep, name: &str, status: u32) -> (e: RegistryError)
    ensures
        e@ == failure(step, name@, status),
{
    RegistryError { step, name: name.to_owned(), status }
}

/// The number that `value` under `subkey` holds, going by what the
/// platform reported: the data where the key opened and the query
/// succeeded, else the failure of the call that did not succeed.
pub fn read_dword(subkey: &str, value: &str, query: DwordQuery) -> (r: Result<u32, RegistryError>)
    ensures
        match query {
            DwordQuery::NotOpened { status } => r matches Err(e) && e@ == failure(
                RegistryStep::OpenForReading,
                subkey@,
                status,
            ),
            DwordQuery::Queried { status, data } => if status == ERROR_SUCCESS {
                r == Ok::<u32, RegistryError>(data)
            } else {
                r matches Err(e) && e@ == failure(RegistryStep::QueryValue, value@, status)
            },
        },
{
    match query {
        DwordQuery::NotOpened { status } => Err(
            failed(RegistryStep::OpenForReading, subkey, status),
        ),
        DwordQuery::Queried { status, data } => if status == ERROR_SUCCESS {
            Ok(data)
        } else {
            Err(failed(RegistryStep::QueryValue, value, status))
        },
    }
}

/// Whether `value` under `subkey` took the number, going by what the
/// platform reported.
pub fn write_dword(subkey: &str, value: &str, write: DwordWrite) -> (r: Result<(), RegistryError>)
    ensures
        match write {
            DwordWrite::NotOpened { status } => r matches Err(e) && e@ == failure(
                RegistryStep::OpenForWriting,
                subkey@,
                status,
            ),
            DwordWrite::Written { status } => if status == ERROR_SUCCESS {
                r is Ok
            } else {
                r matches Err(e) && e@ == failure(RegistryStep::SetValue, value@, status)
            },
        },
{
    match write {
        DwordWrite::NotOpened { status } => Err(
            failed(RegistryStep::OpenForWriting, subkey, status),
        ),
        DwordWrite::Written { status } => if status == ERROR_SUCCESS {
            Ok(())
        } else {
            Err(failed(RegistryStep::SetValue, value, status))
        },
    }
}

/// The number of 16-bit units that hold a text of `data_size` bytes.
pub fn string_buffer_len(data_size: u32) -> (len: usize)
    ensures
        len == data_size / 2,
{
    (data_size / 2) as usize
}

/// The text that a sequence of UTF-16 units stands for, with the
/// replacement character in place of every unit that pairs with nothing.
pub uninterp spec fn utf16_lossy(units: Seq<u16>) -> Seq<char>;

/// `String::from_utf16_lossy` of the standard library: decodes UTF-16 units
/// into a text and puts the replacement character where a unit pairs with
/// nothing. The contract gives the text its name and claims no more.
#[verifier::external_body]
fn decode_utf16(units: &Vec<u16>) -> (text: String)
    ensures
        text@ == utf16_lossy(units@),
{
    String::from_utf16_lossy(units)
}

/// `text` without the run of `c` at its end.
pub open spec fn without_trailing(text: Seq<char>, c: char) -> Seq<char>
    decreases text.len(),
{
    if text.len() > 0 && text.last() == c {
        without_trailing(text.drop_last(), c)
    } else {
        text
    }
}

/// Where text ends in a run of `c`, the run can grow and shrink without a
/// change to what is left when it is taken off.
proof fn without_trailing_run(head: Seq<char>, c: char, run: nat)
    ensures
        without_trailing(head + Seq::new(run, |i: int| c), c) == without_trailing(head, c),
    decreases run,
{
    let whole = head + Seq::new(run, |i: int| c);
    if run == 0 {
        assert(whole =~= head);
    } else {
        assert(whole.last() == c);
        assert(whole.drop_last() =~= head + Seq::new((run - 1) as nat, |i: int| c));
        without_trailing_run(head, c, (run - 1) as nat);
    }
}

/// A copy of `text` without the run of `c` at its end.
pub fn trim_end(text: &str, c: char) -> (out: String)
    ensures
        out@ == without_trailing(text@, c),
{
    let length: usize = text.unicode_len();
    let mut out = String::new();
    let mut pending: usize = 0;
    for ch in it: text.chars()
        invariant
            it.seq() == text@,
            length == text@.len(),
            pending <= it.index(),
            out@ + Seq::new(pending as nat, |i: int| c) == text@.take(it.index() as int),
            out@.len() == 0 || out@.last() != c,
    {
        let ghost before = out@;
        let ghost run = Seq::new(pending as nat, |i: int| c);
        proof {
            assert(text@.take(it.index() + 1) =~= text@.take(it.index() as int).push(ch));
        }
        if ch == c {
            pending = pending + 1;
            proof {
                assert(Seq::new(pending as nat, |i: int| c) =~= run.push(c));
                assert(out@ + Seq::new(pending as nat, |i: int| c) =~= (before + run).push(ch));
            }
        } else {
            let mut k: usize = 0;
            while k < pending
                invariant
                    k <= pending,
                    out@ == before + Seq::new(k as nat, |i: int| c),
                decreases pending - k,
            {
                out.push(c);
                k = k + 1;
                proof {
                    assert(out@ =~= before + Seq::new(k as nat, |i: int| c));
                }
            }
            out.push(ch);
            pending = 0;
            proof {
                assert(out@ + Seq::new(0nat, |i: int| c) =~= (before + run).push(ch));
            }
        }
    }
    proof {
        assert(text@.take(text@.len() as int) =~= text@);
        without_trailing_run(out@, c, pending as nat);
    }
    out
}

/// The text that `value` under `subkey` holds, going by what the platform
/// reported: the decoded buffer without the zero characters at its end
/// where the key opened and both queries succeeded, else the failure of the
/// call that did not succeed.
pub fn read_string(
    subkey: &str,
    value: &str,
    query: StringQuery,
) -> (r: Result<String, RegistryError>)
    ensures
        match query@ {
            StringQueryView::NotOpened { status } => r matches Err(e) && e@ == failure(
                RegistryStep::OpenForReading,
                subkey@,
                status,
            ),
            StringQueryView::NoSize { status } => r matches Err(e) && e@ == failure(
                RegistryStep::QuerySize,
                value@,
                status,
            ),
            StringQueryView::Queried { status, buffer } => if status == ERROR_SUCCESS {
                r matches Ok(text) && text@ == without_trailing(utf16_lossy(buffer), '\0')
            } else {
                r matches Err(e) && e@ == failure(RegistryStep::QueryString, value@, status)
            },
        },
{
    match query {
        StringQuery::NotOpened { status } => Err(
            failed(RegistryStep::OpenForReading, subkey, status),
        ),
        StringQuery::NoSize { status } => Err(failed(RegistryStep::QuerySize, value, status)),
        StringQuery::Queried { status, buffer } => if status == ERROR_SUCCESS {
            let text = decode_utf16(&buffer);
            Ok(trim_end(text.as_str(), '\0'))
        } else {
            Err(failed(RegistryStep::QueryString, value, status))
        },
    }
}

/// What a probe is told of a value: the number where it was read, and that
/// it is missing where it was not.
pub fn reading_of(result: &Result<u32, RegistryError>) -> (reading: Reading)
    ensures
        reading == match *result {
            Ok(v) => Reading::Value(v),
            Err(_) => Reading::Missing,
        },
{
    match result {
        Ok(v) => Reading::Value(*v),
        Err(_) => Reading::Missing,
    }
}

} // verus!
