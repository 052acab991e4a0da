use vstd::prelude::*;
use crate::text::{contains, has_substring};

verus! {

/// A command's output held neither of PowerShell's boolean words.
#[derive(Clone, Debug, PartialEq, Eq)]
pub struct NotABoolean {
    /// The output, verbatim.
    pub output: String,
}

/// Reads a boolean that PowerShell printed: `True` anywhere wins over `False`.
pub fn parse_powershell_boolean(output: &str) -> (r: Result<bool, NotABoolean>)
    ensures
        has_substring(output@, "True"@) ==> r == Ok::<bool, NotABoolean>(true),
        !has_substring(output@, "True"@) && has_substring(output@, "False"@) ==> r == Ok::<bool, NotABoolean>(false),
        !has_substring(output@, "True"@) && !has_substring(output@, "False"@) ==> r is Err && r->Err_0.output@ == output@,
{
    if contains(output, "True") {
        Ok(true)
    } else if contains(output, "False") {
        Ok(false)
    } else {
        Err(NotABoolean { output: String::from_str(output) })
    }
}

/// The services whose drivers make the mapping fail while they run.
pub fn interfering_services() -> (r: Vec<&'static str>)
    ensures
        r@.len() == 4,
        r@[0]@ == "faceit"@,
        r@[1]@ == "vgc"@,
        r@[2]@ == "vgk"@,
        r@[3]@ == "ESEADriver2"@,
{
    vec!["faceit", "vgc", "vgk", "ESEADriver2"]
}

} // verus!
