//! The external transaction scanner: the process that is launched on the
//! twelve-hour cadence.

use vstd::prelude::*;

verus! {

/// A process invocation: the program and its arguments, in order.
pub struct ScannerCommand {
    pub program: String,
    pub args: Vec<String>,
}

pub open spec fn scanner_program() -> Seq<char> {
    "node"@
}

pub open spec fn entry_suffix() -> Seq<char> {
    "/dist/index.js"@
}

pub open spec fn scanner_mode() -> Seq<char> {
    "id-and-phone"@
}

/// The scanner run for an installation in `scanner_dir`: `node` on the
/// entry point under `dist/`, with the fixed mode argument.
pub fn scanner_command(scanner_dir: &str) -> (r: ScannerCommand)
    ensures
        r.program@ == scanner_program(),
        r.args@.len() == 2,
        r.args@[0]@ == scanner_dir@ + entry_suffix(),
        r.args@[1]@ == scanner_mode(),
{
    let entry = String::from_str(scanner_dir).concat("/dist/index.js");
    let mode = String::from_str("id-and-phone");
    let mut args: Vec<String> = Vec::new();
    args.push(entry);
    args.push(mode);
    ScannerCommand { program: String::from_str("node"), args }
}

} // verus!
