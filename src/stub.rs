//! The bootstrap scripts that open a packed file.
use vstd::prelude::*;
use crate::algo::CompressionAlgo;
use crate::text::{dec_chars, decimal_string};

verus! {

/// The marker a fixed-offset stub carries; a file that holds it is packed.
pub const SIGNATURE: &'static str = "TEMS-EXEPACK:v1";

/// What opens a fixed-offset stub, up to the signature.
pub const DD_SHEBANG: &'static str = "#!/bin/sh\n# ";

/// What follows the signature, up to the decompressor offset's value.
pub const DD_PREAMBLE: &'static str = " - compressed by tems-exepack (dd method)\n# (c) Philippe TEMESI https://www.tems.be, 2026\nset -e\n\n# Fixed offsets\nSCRIPT_START=";

/// The line that gives the decompressor's size, up to its value.
pub const DECOMP_SIZE_KEY: &'static str = "\nDECOMP_SIZE=";

/// The line that gives the payload offset, up to its value.
pub const DATA_START_KEY: &'static str = "\nDATA_START=";

/// The end of a line.
pub const LINE_END: &'static str = "\n";

/// The body of a fixed-offset stub, up to the system decompressor's name.
pub const DD_BODY: &'static str = "\nSCRIPT=\"$0\"\n\n# Private working directory for this process\nTMPDIR=/tmp/tems-exepack.$$.$(date +%s)\nmkdir -p \"$TMPDIR\" || exit 1\n\n# Clean up on exit and on signals\ntrap 'rm -rf \"$TMPDIR\"' EXIT INT TERM HUP\n\n# Extract the embedded decompressor, if there is one\nif [ $DECOMP_SIZE -gt 0 ]; then\n    dd if=\"$SCRIPT\" bs=1 skip=$SCRIPT_START count=$DECOMP_SIZE of=\"$TMPDIR/decompress\" 2>/dev/null\n    if [ ! -s \"$TMPDIR/decompress\" ]; then\n        echo \"Error: decompressor extraction failed\" >&2\n        exit 1\n    fi\n    chmod +x \"$TMPDIR/decompress\"\n    DECOMP_CMD=\"$TMPDIR/decompress\"\nelse\n    # Use the system decompressor\n    DECOMP_CMD=\"";

/// The rest of a fixed-offset stub.
pub const DD_TAIL: &'static str = "\"\nfi\n\n# Extract the compressed payload\ndd if=\"$SCRIPT\" bs=1 skip=$DATA_START of=\"$TMPDIR/compressed\" 2>/dev/null\nif [ ! -s \"$TMPDIR/compressed\" ]; then\n    echo \"Error: data extraction failed\" >&2\n    exit 1\nfi\n\n# Decompress\nif [ \"$DECOMP_CMD\" = \"gzip\" ] || [ \"$DECOMP_CMD\" = \"bzip2\" ] || [ \"$DECOMP_CMD\" = \"xz\" ]; then\n    $DECOMP_CMD -d -c < \"$TMPDIR/compressed\" > \"$TMPDIR/out\"\nelse\n    cat \"$TMPDIR/compressed\" | \"$DECOMP_CMD\" > \"$TMPDIR/out\"\nfi\n\nif [ ! -s \"$TMPDIR/out\" ]; then\n    echo \"Error: decompression failed\" >&2\n    exit 1\nfi\n\nchmod +x \"$TMPDIR/out\"\nexec \"$TMPDIR/out\" \"$@\"\n";

/// The opening of a line-marker stub.
pub const AWK_HEAD: &'static str = "#!/bin/sh\n# compressed by tems-exepack\n# (c) Philippe TEMESI https://www.tems.be, 2026\nset -e\n\n# Create temporary directory\nTMPDIR=/tmp/tems-exepack.$$\nmkdir -p \"$TMPDIR\" || exit 1\ntrap 'rm -rf \"$TMPDIR\"' EXIT\n\n# Find markers\nSCRIPT=\"$0\"\nDECOMP_LINENUM=$(awk '/^__DECOMPRESSOR__$/ {print NR; exit}' \"$SCRIPT\")\nDATA_LINENUM=$(awk '/^__DATA__$/ {print NR; exit}' \"$SCRIPT\")\n\nif [ -z \"$DECOMP_LINENUM\" ] || [ -z \"$DATA_LINENUM\" ]; then\n    echo \"Invalid format: missing markers\" >&2\n    exit 1\nfi\n\n";

pub const AWK_GZIP: &'static str = "# Use gzip for decompression\n# Extract compressed data (after __DATA__)\ntail -n +$((DATA_LINENUM + 1)) \"$SCRIPT\" > \"$TMPDIR/compressed\"\n\n# Verify extraction\nif [ ! -s \"$TMPDIR/compressed\" ]; then\n    echo \"Error: data extraction failed\" >&2\n    exit 1\nfi\n\n# Decompress with gzip\ngzip -d -c < \"$TMPDIR/compressed\" > \"$TMPDIR/out\"\n";

pub const AWK_BZIP2: &'static str = "# Use bzip2 for decompression\n# Extract compressed data (after __DATA__)\ntail -n +$((DATA_LINENUM + 1)) \"$SCRIPT\" > \"$TMPDIR/compressed\"\n\n# Verify extraction\nif [ ! -s \"$TMPDIR/compressed\" ]; then\n    echo \"Error: data extraction failed\" >&2\n    exit 1\nfi\n\n# Decompress with bzip2\nbzip2 -d -c < \"$TMPDIR/compressed\" > \"$TMPDIR/out\"\n";

pub const AWK_XZ: &'static str = "# Use xz for decompression\n# Extract compressed data (after __DATA__)\ntail -n +$((DATA_LINENUM + 1)) \"$SCRIPT\" > \"$TMPDIR/compressed\"\n\n# Verify extraction\nif [ ! -s \"$TMPDIR/compressed\" ]; then\n    echo \"Error: data extraction failed\" >&2\n    exit 1\nfi\n\n# Decompress with xz\nxz -d -c < \"$TMPDIR/compressed\" > \"$TMPDIR/out\"\n";

pub const AWK_EMBEDDED: &'static str = "# Extract the embedded decompressor (between __DECOMPRESSOR__ and __DATA__)\ntail -n +$((DECOMP_LINENUM + 1)) \"$SCRIPT\" | head -n $((DATA_LINENUM - DECOMP_LINENUM - 1)) > \"$TMPDIR/decompress\"\nchmod +x \"$TMPDIR/decompress\"\n\n# Extract compressed data (after __DATA__)\ntail -n +$((DATA_LINENUM + 1)) \"$SCRIPT\" > \"$TMPDIR/compressed\"\n\n# Verify extraction\nif [ ! -s \"$TMPDIR/decompress\" ] || [ ! -s \"$TMPDIR/compressed\" ]; then\n    echo \"Error: data extraction failed\" >&2\n    exit 1\nfi\n\n# Decompress with the embedded decompressor (it reads standard input)\ncat \"$TMPDIR/compressed\" | \"$TMPDIR/decompress\" > \"$TMPDIR/out\"\n";

/// The end of a line-marker stub, with the marker line that follows it.
pub const AWK_TAIL: &'static str = "\n\n# Verify decompression success\nif [ ! -s \"$TMPDIR/out\" ]; then\n    echo \"Error: decompression failed\" >&2\n    exit 1\nfi\n\nchmod +x \"$TMPDIR/out\"\nexec \"$TMPDIR/out\" \"$@\"\n__DECOMPRESSOR__\n";

/// The command a fixed-offset stub runs to decompress when it embeds no
/// decompressor.
pub open spec fn stub_command(algo: CompressionAlgo) -> Seq<char> {
    match algo {
        CompressionAlgo::Gzip => "gzip"@,
        CompressionAlgo::Bzip2 => "bzip2"@,
        CompressionAlgo::Xz => "xz"@,
        CompressionAlgo::TemsXz => "$TMPDIR/decompress"@,
    }
}

/// The opening lines of a fixed-offset stub: the signature, then the three
/// offsets, one per line.
pub open spec fn dd_fields(script_start: nat, decomp_size: nat, data_start: nat) -> Seq<char> {
    DD_SHEBANG@ + SIGNATURE@ + DD_PREAMBLE@ + dec_chars(script_start) + DECOMP_SIZE_KEY@
        + dec_chars(decomp_size) + DATA_START_KEY@ + dec_chars(data_start) + LINE_END@
}

/// The fixed-offset stub: it reads the decompressor (if `decomp_size` is not
/// zero) from `script_start`, the payload from `data_start` to the end of the
/// file, decompresses and runs the result.
pub open spec fn dd_script(
    script_start: nat,
    decomp_size: nat,
    data_start: nat,
    algo: CompressionAlgo,
) -> Seq<char> {
    dd_fields(script_start, decomp_size, data_start) + DD_BODY@ + stub_command(algo) + DD_TAIL@
}

/// The part of a line-marker stub that extracts and decompresses the payload.
pub open spec fn awk_part(algo: CompressionAlgo) -> Seq<char> {
    match algo {
        CompressionAlgo::Gzip => AWK_GZIP@,
        CompressionAlgo::Bzip2 => AWK_BZIP2@,
        CompressionAlgo::Xz => AWK_XZ@,
        CompressionAlgo::TemsXz => AWK_EMBEDDED@,
    }
}

/// The line-marker stub: it finds the decompressor after a `__DECOMPRESSOR__`
/// line and the payload after a `__DATA__` line.
pub open spec fn awk_script(algo: CompressionAlgo) -> Seq<char> {
    AWK_HEAD@ + awk_part(algo) + AWK_TAIL@
}

fn decompressor_command(algo: CompressionAlgo) -> (r: &'static str)
    ensures
        r@ == stub_command(algo),
{
    match algo {
        CompressionAlgo::Gzip => "gzip",
        CompressionAlgo::Bzip2 => "bzip2",
        CompressionAlgo::Xz => "xz",
        CompressionAlgo::TemsXz => "$TMPDIR/decompress",
    }
}

/// Renders the fixed-offset stub for the given offsets and algorithm.
pub fn generate_dd_decompression_script(
    script_start: usize,
    decomp_size: usize,
    data_start: usize,
    algo: CompressionAlgo,
) -> (r: String)
    ensures
        r@ == dd_script(script_start as nat, decomp_size as nat, data_start as nat, algo),
{
    let mut s = String::from_str(DD_SHEBANG);
    s.append(SIGNATURE);
    s.append(DD_PREAMBLE);
    let a = decimal_string(script_start);
    s.append(a.as_str());
    s.append(DECOMP_SIZE_KEY);
    let b = decimal_string(decomp_size);
    s.append(b.as_str());
    s.append(DATA_START_KEY);
    let c = decimal_string(data_start);
    s.append(c.as_str());
    s.append(LINE_END);
    s.append(DD_BODY);
    s.append(decompressor_command(algo));
    s.append(DD_TAIL);
    s
}

/// Renders the line-marker stub for the algorithm.
pub fn generate_awk_decompression_script(algo: CompressionAlgo) -> (r: String)
    ensures
        r@ == awk_script(algo),
{
    let part = match algo {
        CompressionAlgo::Gzip => AWK_GZIP,
        CompressionAlgo::Bzip2 => AWK_BZIP2,
        CompressionAlgo::Xz => AWK_XZ,
        CompressionAlgo::TemsXz => AWK_EMBEDDED,
    };
    let mut s = String::from_str(AWK_HEAD);
    s.append(part);
    s.append(AWK_TAIL);
    s
}

} // verus!
