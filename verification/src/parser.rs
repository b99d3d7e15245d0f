//! Configuration values and the command-line argument scanner.
//!
//! Reading the process environment, the help text and exiting are left to
//! the surrounding binary: the scanner here is a pure function from the
//! argument vector to what was requested.

use vstd::prelude::*;
use vstd::slice::slice_index_get;
use vstd::utf8::encode_utf8;
use vstd::utf8::encode_utf8_decode_utf8;

verus! {

/// The command-line configuration of the lean decryption client: the cipher
/// text and API key, plus output flags.
pub struct Config {
    pub cipher: String,
    pub apikey: String,
    pub debug: bool,
    pub utc: bool,
}

/// The command-line arguments of the full client.
pub struct ArgConfig {
    pub cipher: String,
    pub table_name: String,
    pub get_secret: String,
    pub get_secrets: String,
    pub get_table: String,
}

/// The character-level contents of an `ArgConfig`.
pub struct ArgConfigView {
    pub cipher: Seq<char>,
    pub table_name: Seq<char>,
    pub get_secret: Seq<char>,
    pub get_secrets: Seq<char>,
    pub get_table: Seq<char>,
}

impl ArgConfigView {
    /// The state before any argument has been seen: every field empty.
    pub open spec fn initial() -> ArgConfigView {
        ArgConfigView {
            cipher: Seq::empty(),
            table_name: Seq::empty(),
            get_secret: Seq::empty(),
            get_secrets: Seq::empty(),
            get_table: Seq::empty(),
        }
    }
}

impl View for ArgConfig {
    type V = ArgConfigView;

    open spec fn view(&self) -> ArgConfigView {
        ArgConfigView {
            cipher: self.cipher@,
            table_name: self.table_name@,
            get_secret: self.get_secret@,
            get_secrets: self.get_secrets@,
            get_table: self.get_table@,
        }
    }
}

/// What a scan of the argument vector requests.
pub enum ArgScan {
    /// `-h` or `--help` was seen.
    Help,
    /// `-V`, `-v` or `--version` was seen and the rest of the vector scanned
    /// without error.
    Version,
    /// The named flag stood last, with no value after it.
    MissingValue(String),
    /// The named argument is not a recognized flag.
    Unknown(String),
    /// The collected argument values and the requested environment file
    /// (empty when none was named).
    Parsed(ArgConfig, String),
}

/// The character-level contents of an `ArgScan`.
pub enum ArgScanView {
    Help,
    Version,
    MissingValue(Seq<char>),
    Unknown(Seq<char>),
    Parsed(ArgConfigView, Seq<char>),
}

impl View for ArgScan {
    type V = ArgScanView;

    open spec fn view(&self) -> ArgScanView {
        match self {
            ArgScan::Help => ArgScanView::Help,
            ArgScan::Version => ArgScanView::Version,
            ArgScan::MissingValue(flag) => ArgScanView::MissingValue(flag@),
            ArgScan::Unknown(arg) => ArgScanView::Unknown(arg@),
            ArgScan::Parsed(cfg, env_file) => ArgScanView::Parsed(cfg@, env_file@),
        }
    }
}

/// The outcome of scanning `args` from position `i` onward, with the values
/// collected so far: help and unknown arguments cut the scan short, a
/// version request is remembered until the end, and each recognized flag
/// consumes the following argument as its value.
pub open spec fn spec_scan(
    args: Seq<Seq<char>>,
    i: int,
    cfg: ArgConfigView,
    env_file: Seq<char>,
    version: bool,
) -> ArgScanView
    decreases args.len() - i,
{
    if i < 0 || i >= args.len() {
        if version {
            ArgScanView::Version
        } else {
            ArgScanView::Parsed(cfg, env_file)
        }
    } else {
        let a = args[i];
        if a == "-h"@ || a == "--help"@ {
            ArgScanView::Help
        } else if a == "-V"@ || a == "-v"@ || a == "--version"@ {
            spec_scan(args, i + 1, cfg, env_file, true)
        } else if a == "--env_file"@ {
            if i + 1 < args.len() {
                spec_scan(args, i + 2, cfg, args[i + 1], version)
            } else {
                ArgScanView::MissingValue(a)
            }
        } else if a == "--cipher"@ {
            if i + 1 < args.len() {
                spec_scan(args, i + 2, ArgConfigView { cipher: args[i + 1], ..cfg }, env_file, version)
            } else {
                ArgScanView::MissingValue(a)
            }
        } else if a == "--table"@ {
            if i + 1 < args.len() {
                spec_scan(
                    args,
                    i + 2,
                    ArgConfigView { table_name: args[i + 1], ..cfg },
                    env_file,
                    version,
                )
            } else {
                ArgScanView::MissingValue(a)
            }
        } else if a == "--get-secret"@ {
            if i + 1 < args.len() {
                spec_scan(
                    args,
                    i + 2,
                    ArgConfigView { get_secret: args[i + 1], ..cfg },
                    env_file,
                    version,
                )
            } else {
                ArgScanView::MissingValue(a)
            }
        } else if a == "--get-secrets"@ {
            if i + 1 < args.len() {
                spec_scan(
                    args,
                    i + 2,
                    ArgConfigView { get_secrets: args[i + 1], ..cfg },
                    env_file,
                    version,
                )
            } else {
                ArgScanView::MissingValue(a)
            }
        } else if a == "--get-table"@ {
            if i + 1 < args.len() {
                spec_scan(
                    args,
                    i + 2,
                    ArgConfigView { get_table: args[i + 1], ..cfg },
                    env_file,
                    version,
                )
            } else {
                ArgScanView::MissingValue(a)
            }
        } else {
            ArgScanView::Unknown(a)
        }
    }
}

/// Whether two strings hold the same characters.
pub fn str_eq(a: &str, b: &str) -> (r: bool)
    ensures
        r == (a@ == b@),
{
    let ab = a.as_bytes();
    let bb = b.as_bytes();
    if ab.len() != bb.len() {
        return false;
    }
    let n = ab.len();
    let mut i: usize = 0;
    while i < n
        invariant
            n == ab@.len() == bb@.len(),
            ab@ == encode_utf8(a@),
            bb@ == encode_utf8(b@),
            0 <= i <= n,
            forall|j: int| 0 <= j < i ==> ab@[j] == bb@[j],
        decreases n - i,
    {
        if *slice_index_get(ab, i) != *slice_index_get(bb, i) {
            return false;
        }
        i = i + 1;
    }
    proof {
        assert(ab@ =~= bb@);
        encode_utf8_decode_utf8(a@);
        encode_utf8_decode_utf8(b@);
    }
    true
}

/// Scans the argument vector (whose first entry is the program name) and
/// returns what it requests, without touching the process environment.
pub fn parse_arguments(args: &Vec<String>) -> (r: ArgScan)
    ensures
        r@ == spec_scan(args.deep_view(), 1, ArgConfigView::initial(), Seq::empty(), false),
{
    let ghost dv = args.deep_view();
    let mut cipher = String::new();
    let mut table_name = String::new();
    let mut get_secret = String::new();
    let mut get_secrets = String::new();
    let mut get_table = String::new();
    let mut env_file = String::new();
    let mut version = false;
    let mut i: usize = 1;
    proof {
        assert(dv.len() == args@.len());
    }
    while i < args.len()
        invariant
            dv == args.deep_view(),
            dv.len() == args@.len(),
            1 <= i,
            spec_scan(dv, 1, ArgConfigView::initial(), Seq::empty(), false) == spec_scan(
                dv,
                i as int,
                ArgConfigView {
                    cipher: cipher@,
                    table_name: table_name@,
                    get_secret: get_secret@,
                    get_secrets: get_secrets@,
                    get_table: get_table@,
                },
                env_file@,
                version,
            ),
        decreases args@.len() - i,
    {
        proof {
            assert(dv[i as int] == args@[i as int]@);
            assert(i + 1 < dv.len() ==> dv[i + 1] == args@[i + 1]@);
        }
        let a = &args[i];
        if str_eq(a.as_str(), "-h") || str_eq(a.as_str(), "--help") {
            return ArgScan::Help;
        } else if str_eq(a.as_str(), "-V") || str_eq(a.as_str(), "-v") || str_eq(
            a.as_str(),
            "--version",
        ) {
            version = true;
            i = i + 1;
        } else if str_eq(a.as_str(), "--env_file") {
            if i + 1 < args.len() {
                env_file = args[i + 1].clone();
                i = i + 2;
            } else {
                return ArgScan::MissingValue(a.clone());
            }
        } else if str_eq(a.as_str(), "--cipher") {
            if i + 1 < args.len() {
                cipher = args[i + 1].clone();
                i = i + 2;
            } else {
                return ArgScan::MissingValue(a.clone());
            }
        } else if str_eq(a.as_str(), "--table") {
            if i + 1 < args.len() {
                table_name = args[i + 1].clone();
                i = i + 2;
            } else {
                return ArgScan::MissingValue(a.clone());
            }
        } else if str_eq(a.as_str(), "--get-secret") {
            if i + 1 < args.len() {
                get_secret = args[i + 1].clone();
                i = i + 2;
            } else {
                return ArgScan::MissingValue(a.clone());
            }
        } else if str_eq(a.as_str(), "--get-secrets") {
            if i + 1 < args.len() {
                get_secrets = args[i + 1].clone();
                i = i + 2;
            } else {
                return ArgScan::MissingValue(a.clone());
            }
        } else if str_eq(a.as_str(), "--get-table") {
            if i + 1 < args.len() {
                get_table = args[i + 1].clone();
                i = i + 2;
            } else {
                return ArgScan::MissingValue(a.clone());
            }
        } else {
            return ArgScan::Unknown(a.clone());
        }
    }
    let cfg = ArgConfig { cipher, table_name, get_secret, get_secrets, get_table };
    if version {
        ArgScan::Version
    } else {
        ArgScan::Parsed(cfg, env_file)
    }
}

} // verus!
