//! The fixed texts the tool renders: the usage text and the version line.

use vstd::prelude::*;
use vstd::string::StringExecFns;

verus! {

/// The usage text, one line per sentence, each line newline-terminated.
pub open spec fn spec_help_text() -> Seq<char> {
    "clt: compress lossy text\n"@ + "usage: clt [options] [file] [output]\n"@
        + "if no file is specified, stdin is used\n"@
        + "if no output is specified, stdout is used\n"@ + "options:\n"@
        + "  -h, --help: show this help message\n"@ + "  -v, --version: show version\n"@
        + "  -c, --compress: compress file (default)\n"@ + "  -d, --decompress: decompress file\n"@
        + "  -[1-5]: compression level (default: 3)\n"@
        + "  -[1-4]: decompression level (default: 3)\n"@
}

/// The version line, newline excluded.
pub open spec fn spec_version_text() -> Seq<char> {
    "clt 0.1.0"@
}

/// Renders the usage text.
pub fn help_text() -> (r: String)
    ensures
        r@ == spec_help_text(),
{
    let mut s = String::from_str("clt: compress lossy text\n");
    s.append("usage: clt [options] [file] [output]\n");
    s.append("if no file is specified, stdin is used\n");
    s.append("if no output is specified, stdout is used\n");
    s.append("options:\n");
    s.append("  -h, --help: show this help message\n");
    s.append("  -v, --version: show version\n");
    s.append("  -c, --compress: compress file (default)\n");
    s.append("  -d, --decompress: decompress file\n");
    s.append("  -[1-5]: compression level (default: 3)\n");
    s.append("  -[1-4]: decompression level (default: 3)\n");
    s
}

/// Renders the version line.
pub fn version_text() -> (r: String)
    ensures
        r@ == spec_version_text(),
{
    String::from_str("clt 0.1.0")
}

} // verus!
