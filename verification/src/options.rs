use vstd::prelude::*;

verus! {

/// One engine configuration override, forwarded to the external binary as
/// `name=value` inside the combined configuration flag.
#[derive(Debug, Clone)]
pub struct ConfigVariable {
    pub name: String,
    pub value: String,
}

/// The recognition options forwarded to the external binary: the language
/// code, the resolution, the page segmentation mode, the engine mode, and
/// any engine configuration overrides.  The numeric modes are consumed
/// verbatim by the binary and not interpreted here.
#[derive(Debug, Clone)]
pub struct Args {
    pub lang: String,
    pub dpi: i32,
    pub psm: i32,
    pub oem: i32,
    pub config_variables: Vec<ConfigVariable>,
}

/// The `name=value` text of a single configuration override.
pub open spec fn spec_config_entry(v: ConfigVariable) -> Seq<char> {
    v.name@ + "="@ + v.value@
}

/// The combined configuration parameter: every override as `name=value`,
/// in order, joined with commas.
pub open spec fn spec_config_param(vars: Seq<ConfigVariable>) -> Seq<char>
    decreases vars.len(),
{
    if vars.len() == 0 {
        Seq::empty()
    } else if vars.len() == 1 {
        spec_config_entry(vars[0])
    } else {
        spec_config_entry(vars[0]) + ","@ + spec_config_param(vars.skip(1))
    }
}

/// Joins a run of configuration overrides into one comma-separated
/// `name=value` list.
fn join_config_vars(vars: &[ConfigVariable]) -> (r: String)
    ensures
        r@ == spec_config_param(vars@),
    decreases vars@.len(),
{
    if vars.len() == 0 {
        String::new()
    } else {
        let head = vstd::slice::slice_index_get(vars, 0);
        let mut s = head.name.clone();
        s.append("=");
        s.append(head.value.as_str());
        if vars.len() > 1 {
            s.append(",");
            let rest = join_config_vars(vstd::slice::slice_subrange(vars, 1, vars.len()));
            s.append(rest.as_str());
        }
        s
    }
}

impl Args {
    /// The combined configuration parameter for the single `-c` flag, or
    /// nothing when no override is present.
    pub fn get_config_variable_args(&self) -> (r: Option<String>)
        ensures
            match r {
                None => self.config_variables@.len() == 0,
                Some(p) => self.config_variables@.len() > 0 && p@ == spec_config_param(
                    self.config_variables@,
                ),
            },
    {
        if self.config_variables.len() == 0 {
            None
        } else {
            let joined = join_config_vars(self.config_variables.as_slice());
            Some(joined)
        }
    }
}

} // verus!
