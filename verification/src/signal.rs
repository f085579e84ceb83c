use pyo3::PyErr;
use std::fmt::Write;
use vstd::prelude::*;
use vstd::std_specs::convert::FromSpecImpl;
use vstd::string::StringExecFns;

verus! {

/// A Python exception as `pyo3` hands it out. Its contents are opaque here: the library only
/// carries such a value from the interrupt authority to the caller.
#[verifier::external_type_specification]
#[verifier::external_body]
pub struct ExPyErr(PyErr);

/// A fatal signal: the interrupt authority reported an exception while the poller was asking.
///
/// Such an exception (a `KeyboardInterrupt`, a `SystemExit`, a `MemoryError`) is not an ordinary
/// failure of the computation. It is never consumed or rewrapped, so that it keeps propagating
/// and the host can clean up and exit.
#[derive(Debug)]
pub struct FatalPythonException(pub PyErr);

impl From<PyErr> for FatalPythonException {
    fn from(value: PyErr) -> (sig: Self) {
        FatalPythonException(value)
    }
}

impl FromSpecImpl<PyErr> for FatalPythonException {
    open spec fn obeys_from_spec() -> bool {
        true
    }

    open spec fn from_spec(value: PyErr) -> Self {
        FatalPythonException(value)
    }
}

impl From<FatalPythonException> for PyErr {
    fn from(value: FatalPythonException) -> (err: Self) {
        value.0
    }
}

impl FromSpecImpl<FatalPythonException> for PyErr {
    open spec fn obeys_from_spec() -> bool {
        true
    }

    open spec fn from_spec(value: FatalPythonException) -> Self {
        value.0
    }
}

/// What every message of a fatal signal starts with.
pub open spec fn fatal_prefix() -> Seq<char> {
    "Fatal Python exception: "@
}

/// The message of a fatal signal whose exception renders as `rendered`.
pub fn fatal_message(rendered: &str) -> (msg: String)
    ensures
        msg@ == fatal_prefix() + rendered@,
{
    String::from_str("Fatal Python exception: ").concat(rendered)
}

/// Renders the exception with `PyErr`'s `Display` impl, which writes the name of the
/// exception's class and what its `__str__` gives. Nothing is claimed of the text: both come
/// from Python code. Where that impl gives up, what it had written by then is the text.
#[verifier::external_body]
fn render(err: &PyErr) -> (text: String) {
    let mut text = String::new();
    let _ = write!(text, "{}", err);
    text
}

impl FatalPythonException {
    /// The message of this signal: the fixed prefix, then the exception as Python renders it.
    pub fn message(&self) -> (msg: String)
        ensures
            fatal_prefix().is_prefix_of(msg@),
    {
        let rendered = render(&self.0);
        let msg = fatal_message(rendered.as_str());
        assert(msg@.subrange(0, fatal_prefix().len() as int) == fatal_prefix());
        msg
    }
}

} // verus!
