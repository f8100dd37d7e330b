//! The `config` command's choices: which file it works on, whether a
//! template may be written there, and which editor opens it.
use vstd::prelude::*;
use crate::text::string_of;

verus! {

/// The config file to work on: the one named, else `.xlm-ns.toml`.
pub fn config_path_or_default(path: Option<String>) -> (r: String)
    ensures
        match path {
            Some(p) => r@ == p@,
            None => r@ == ".xlm-ns.toml"@,
        },
{
    match path {
        Some(p) => p,
        None => string_of(".xlm-ns.toml"),
    }
}

/// Whether a template may be written at `path`: not over an existing file
/// unless forced. The error names the file.
pub fn template_write_allowed(path: &str, exists: bool, force: bool) -> (r: Result<(), String>)
    ensures
        r.is_err() <==> (exists && !force),
        r matches Err(m) ==> m@ == "config file "@ + path@ + " already exists (pass --force to overwrite)"@,
{
    if exists && !force {
        let mut m = string_of("config file ");
        m.append(path);
        m.append(" already exists (pass --force to overwrite)");
        Err(m)
    } else {
        Ok(())
    }
}

/// The editor that opens the config file: `$VISUAL`, else `$EDITOR`, else `vi`.
pub fn editor_choice(visual: Option<String>, editor: Option<String>) -> (r: String)
    ensures
        match (visual, editor) {
            (Some(v), _) => r@ == v@,
            (None, Some(e)) => r@ == e@,
            (None, None) => r@ == "vi"@,
        },
{
    match visual {
        Some(v) => v,
        None => match editor {
            Some(e) => e,
            None => string_of("vi"),
        },
    }
}

} // verus!
