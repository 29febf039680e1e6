//! The host's error cluster and the machinery that writes into it.
//!
//! An error cluster is a fixed-layout record the host allocates and passes
//! to every native entry point: a one-byte boolean status flag, a signed
//! status code, and a host-owned text handle holding the formatted source.
//! Here the host-owned text handle is modeled by the owned text it holds;
//! growing the handle is the host's concern, the text written into it is
//! this library's.

use vstd::prelude::*;

use crate::boolean::LVBool;
use crate::errors::{LVInteropError, LVStatusCode, GENERIC_ERROR_CODE, SUCCESS_CODE};

verus! {

/// The combined source text the host displays, built from a source and a
/// description: both present joins them around a `<ERR>` marker line, a
/// lone source stands alone, a lone description stands behind the marker,
/// and two empty inputs give the empty text.
pub open spec fn spec_format_error_source(source: Seq<char>, description: Seq<char>) -> Seq<char> {
    if source.len() != 0 && description.len() != 0 {
        source + "\n<ERR>\n"@ + description
    } else if source.len() != 0 {
        source
    } else if description.len() != 0 {
        "<ERR>\n"@ + description
    } else {
        Seq::empty()
    }
}

/// The source-format rule, case by case: both texts present join around the
/// marker line, a lone source stands alone, a lone description stands behind
/// the marker, and two empty texts give the empty text.
pub proof fn lemma_format_error_source_cases(source: Seq<char>, description: Seq<char>)
    ensures
        source.len() != 0 && description.len() != 0 ==> spec_format_error_source(
            source,
            description,
        ) == source + "\n<ERR>\n"@ + description,
        source.len() != 0 && description.len() == 0 ==> spec_format_error_source(
            source,
            description,
        ) == source,
        source.len() == 0 && description.len() != 0 ==> spec_format_error_source(
            source,
            description,
        ) == "<ERR>\n"@ + description,
        source.len() == 0 && description.len() == 0 ==> spec_format_error_source(
            source,
            description,
        ) == Seq::<char>::empty(),
{
}

/// The record format used by the host for transmitting errors: a boolean
/// status flag (true means error), a signed status code, and the formatted
/// source text.
pub struct ErrorCluster {
    status: LVBool,
    code: LVStatusCode,
    source: String,
}

impl ErrorCluster {
    /// Whether the flag byte is set to the canonical true value, i.e. the
    /// cluster reports an error rather than a warning or success.
    pub closed spec fn spec_status(&self) -> bool {
        self.status@ == 1
    }

    /// The stored status code.
    pub closed spec fn spec_code(&self) -> LVStatusCode {
        self.code
    }

    /// The stored formatted source text.
    pub closed spec fn spec_source(&self) -> Seq<char> {
        self.source@
    }

    /// A clean cluster as the host hands it to a first entry point: no
    /// error, success code, empty source text.
    pub fn new() -> (cluster: ErrorCluster)
        ensures
            !cluster.spec_status(),
            cluster.spec_code() == SUCCESS_CODE,
            cluster.spec_source().len() == 0,
    {
        let source = String::from_str("");
        proof {
            reveal_strlit("");
        }
        ErrorCluster { status: LVBool::lv_false(), code: SUCCESS_CODE, source }
    }

    /// True when the cluster reports an error.
    pub fn status(&self) -> (s: bool)
        ensures
            s == self.spec_status(),
    {
        let canonical_true = LVBool::lv_true();
        self.status == canonical_true
    }

    /// The stored status code.
    pub fn code(&self) -> (c: LVStatusCode)
        ensures
            c == self.spec_code(),
    {
        self.code
    }

    /// The stored formatted source text.
    pub fn source_text(&self) -> (s: &str)
        ensures
            s@ == self.spec_source(),
    {
        self.source.as_str()
    }

    /// Combine a source and a description into the text the host displays,
    /// by the fixed rule of [`spec_format_error_source`].
    pub fn format_error_source(source: &str, description: &str) -> (r: String)
        ensures
            r@ == spec_format_error_source(source@, description@),
    {
        let source_empty = source.unicode_len() == 0;
        let description_empty = description.unicode_len() == 0;
        if !source_empty && !description_empty {
            let mut combined = String::from_str(source);
            combined.append("\n<ERR>\n");
            combined.append(description);
            combined
        } else if !source_empty {
            String::from_str(source)
        } else if !description_empty {
            let mut combined = String::from_str("<ERR>\n");
            combined.append(description);
            combined
        } else {
            let combined = String::from_str("");
            proof {
                reveal_strlit("");
                assert(combined@ =~= Seq::<char>::empty());
            }
            combined
        }
    }

    /// Write the combined source text for the given pair into the cluster's
    /// text handle, leaving flag and code untouched.  In the host this write
    /// goes through the string-handle primitive, which may reallocate the
    /// handle; the text that ends up in it is exactly the formatted one.
    pub fn set_source(&mut self, source: &str, description: &str) -> (r: Result<
        (),
        LVInteropError,
    >)
        ensures
            r is Ok,
            final(self).spec_source() == spec_format_error_source(source@, description@),
            final(self).spec_status() == old(self).spec_status(),
            final(self).spec_code() == old(self).spec_code(),
    {
        let full_source = Self::format_error_source(source, description);
        self.source = full_source;
        Ok(())
    }

    /// Put the cluster into the warning state: flag cleared, the given code
    /// stored, and the source text formatted from the given pair.
    pub fn set_warning(&mut self, code: LVStatusCode, source: &str, description: &str) -> (r:
        Result<(), LVInteropError>)
        ensures
            r is Ok,
            !final(self).spec_status(),
            final(self).spec_code() == code,
            final(self).spec_source() == spec_format_error_source(source@, description@),
    {
        self.code = code;
        self.status = LVBool::lv_false();
        self.set_source(source, description)
    }

    /// Put the cluster into the error state: flag set, the given code
    /// stored, and the source text formatted from the given pair.
    pub fn set_error(&mut self, code: LVStatusCode, source: &str, description: &str) -> (r: Result<
        (),
        LVInteropError,
    >)
        ensures
            r is Ok,
            final(self).spec_status(),
            final(self).spec_code() == code,
            final(self).spec_source() == spec_format_error_source(source@, description@),
    {
        self.code = code;
        self.status = LVBool::lv_true();
        self.set_source(source, description)
    }
}

/// The capability a native error value implements so it can describe itself
/// for marshaling into an error cluster.
pub trait ToLvError {
    /// The status code the value reports.
    spec fn spec_code(&self) -> LVStatusCode;

    /// Whether the value is an error (true) or a warning (false).
    spec fn spec_is_error(&self) -> bool;

    /// The source text the value reports.
    spec fn spec_source(&self) -> Seq<char>;

    /// The description text the value reports.
    spec fn spec_description(&self) -> Seq<char>;

    /// The code for the error.
    fn code(&self) -> (c: LVStatusCode)
        ensures
            c == self.spec_code(),
    ;

    /// True if the value reports itself as an error rather than a warning.
    fn is_error(&self) -> (e: bool)
        ensures
            e == self.spec_is_error(),
    ;

    /// The source of the error, if the value carries one.
    fn source(&self) -> (s: String)
        ensures
            s@ == self.spec_source(),
    ;

    /// The description of the error.
    fn description(&self) -> (d: String)
        ensures
            d@ == self.spec_description(),
    ;

    /// Marshal this value into the given error cluster: the flag follows
    /// `is_error`, the code is `code`, and the source text is formatted from
    /// `source` and `description` by the fixed rule.
    fn write_error(&self, cluster: &mut ErrorCluster) -> (r: Result<(), LVInteropError>)
        ensures
            r is Ok,
            final(cluster).spec_status() == self.spec_is_error(),
            final(cluster).spec_code() == self.spec_code(),
            final(cluster).spec_source() == spec_format_error_source(
                self.spec_source(),
                self.spec_description(),
            ),
    {
        let code = self.code();
        let source = self.source();
        let description = self.description();
        if self.is_error() {
            cluster.set_error(code, source.as_str(), description.as_str())
        } else {
            cluster.set_warning(code, source.as_str(), description.as_str())
        }
    }
}

/// A plain reportable error value carrying its code, severity, source and
/// description as explicit fields; the constructors fill in the defaults a
/// value may leave unsaid (generic code, error severity, empty source).
pub struct ErrorText {
    code: LVStatusCode,
    error: bool,
    source: String,
    description: String,
}

impl ErrorText {
    /// A reportable error with every field chosen by the caller.
    pub fn with_all_fields(code: LVStatusCode, error: bool, source: &str, description: &str) -> (e:
        ErrorText)
        ensures
            e.spec_code() == code,
            e.spec_is_error() == error,
            e.spec_source() == source@,
            e.spec_description() == description@,
    {
        ErrorText {
            code,
            error,
            source: String::from_str(source),
            description: String::from_str(description),
        }
    }

    /// A reportable error with the given description and the defaults
    /// everywhere else: the generic fallback code, error severity, and an
    /// empty source.
    pub fn new(description: &str) -> (e: ErrorText)
        ensures
            e.spec_code() == GENERIC_ERROR_CODE,
            e.spec_is_error(),
            e.spec_source().len() == 0,
            e.spec_description() == description@,
    {
        proof {
            reveal_strlit("");
        }
        Self::with_all_fields(GENERIC_ERROR_CODE, true, "", description)
    }
}

impl ToLvError for ErrorText {
    closed spec fn spec_code(&self) -> LVStatusCode {
        self.code
    }

    closed spec fn spec_is_error(&self) -> bool {
        self.error
    }

    closed spec fn spec_source(&self) -> Seq<char> {
        self.source@
    }

    closed spec fn spec_description(&self) -> Seq<char> {
        self.description@
    }

    fn code(&self) -> (c: LVStatusCode) {
        self.code
    }

    fn is_error(&self) -> (e: bool) {
        self.error
    }

    fn source(&self) -> (s: String) {
        let copy = String::from_str(self.source.as_str());
        copy
    }

    fn description(&self) -> (d: String) {
        let copy = String::from_str(self.description.as_str());
        copy
    }
}

impl ToLvError for LVInteropError {
    open spec fn spec_code(&self) -> LVStatusCode {
        LVInteropError::spec_code(self)
    }

    open spec fn spec_is_error(&self) -> bool {
        true
    }

    open spec fn spec_source(&self) -> Seq<char> {
        Seq::empty()
    }

    open spec fn spec_description(&self) -> Seq<char> {
        LVInteropError::spec_description(self)
    }

    fn code(&self) -> (c: LVStatusCode) {
        LVInteropError::code(self)
    }

    fn is_error(&self) -> (e: bool) {
        true
    }

    fn source(&self) -> (s: String) {
        let empty = String::from_str("");
        proof {
            reveal_strlit("");
            assert(empty@ =~= Seq::<char>::empty());
        }
        empty
    }

    fn description(&self) -> (d: String) {
        self.description_text()
    }
}

/// Run one unit of guarded work against the shared error cluster, enforcing
/// first-error-wins across chained entry points.
///
/// If the cluster already reports an error the work is never run and the
/// cluster's existing code comes back unchanged.  Otherwise the work runs:
/// success returns the success code and leaves the cluster untouched, and a
/// failure is marshaled into the cluster and its code returned.
pub fn with_lv_errorhandling<E: ToLvError, F: FnOnce() -> Result<(), E>>(
    cluster: &mut ErrorCluster,
    work: F,
) -> (status: LVStatusCode)
    requires
        !old(cluster).spec_status() ==> call_requires(work, ()),
    ensures
        old(cluster).spec_status() ==> {
            &&& status == old(cluster).spec_code()
            &&& final(cluster).spec_status() == old(cluster).spec_status()
            &&& final(cluster).spec_code() == old(cluster).spec_code()
            &&& final(cluster).spec_source() == old(cluster).spec_source()
        },
        !old(cluster).spec_status() ==> exists|r: Result<(), E>|
            {
                &&& #[trigger] call_ensures(work, (), r)
                &&& match r {
                    Ok(_) => {
                        &&& status == SUCCESS_CODE
                        &&& final(cluster).spec_status() == old(cluster).spec_status()
                        &&& final(cluster).spec_code() == old(cluster).spec_code()
                        &&& final(cluster).spec_source() == old(cluster).spec_source()
                    },
                    Err(failure) => {
                        &&& status == failure.spec_code()
                        &&& final(cluster).spec_status() == failure.spec_is_error()
                        &&& final(cluster).spec_code() == failure.spec_code()
                        &&& final(cluster).spec_source() == spec_format_error_source(
                            failure.spec_source(),
                            failure.spec_description(),
                        )
                    },
                }
            },
{
    if cluster.status() {
        cluster.code()
    } else {
        let outcome = work();
        match outcome {
            Ok(_) => SUCCESS_CODE,
            Err(failure) => {
                let failure_code = failure.code();
                let write_result = failure.write_error(cluster);
                match write_result {
                    Ok(_) => failure_code,
                    Err(_) => failure_code,
                }
            },
        }
    }
}

} // verus!
