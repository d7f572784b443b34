use crate::error::GpgError;
use vstd::prelude::*;

verus! {

/// What the engine reports about itself for one protocol, as plain values.
#[derive(Clone, Debug)]
pub struct EngineInfo {
    /// Name of the protocol.
    pub protocol: String,
    /// Path of the engine executable.
    pub path: Option<String>,
    /// Version of the engine.
    pub version: Option<String>,
    /// The minimum engine version required.
    pub required_version: Option<String>,
}

/// Configuration of the engine: the user-tunable values affecting export
/// format, key selection and filesystem placement.
#[derive(Clone, Debug)]
pub struct GpgConfig {
    /// Flag for using ASCII armored output.
    pub armor: bool,
    /// Default key for signing operations.
    pub default_key: Option<String>,
    /// Home directory.
    pub home_dir: String,
    /// Template for the output file name.
    pub output_file: String,
    /// Output directory.
    pub output_dir: String,
}

/// The home directory a configuration adopts: the caller's override when
/// present, else the engine-reported default, else none.
pub open spec fn spec_home_dir(
    homedir: Option<String>,
    engine_home_dir: Option<String>,
) -> Option<Seq<char>> {
    match homedir {
        Some(h) => Some(h@),
        None => match engine_home_dir {
            Some(h) => Some(h@),
            None => None,
        },
    }
}

/// An optional string, `?` when absent.
pub open spec fn opt_or_mark(o: Option<String>) -> Seq<char> {
    match o {
        Some(s) => s@,
        None => "?"@,
    }
}

/// The informational block of a configuration, given the engine's own
/// report.
pub open spec fn spec_info_block(
    c: GpgConfig,
    gpgme_version: Seq<char>,
    e: EngineInfo,
    data_dir: Option<String>,
) -> Seq<char> {
    "GPGME version: "@ + gpgme_version + "\nGPGME protocol: "@ + e.protocol@
        + "\nGPGME engine: "@ + opt_or_mark(e.path) + "\nGPGME engine version: "@ + opt_or_mark(
        e.version,
    ) + " (>"@ + opt_or_mark(e.required_version) + ")"@ + "\nGnuPG home directory: "@
        + c.home_dir@ + "\nGnuPG data directory: "@ + opt_or_mark(data_dir)
        + "\nOutput directory: "@ + c.output_dir@ + "\nDefault signing key: "@ + (match c
        .default_key {
        Some(k) => k@,
        None => "not specified"@,
    }) + "\nArmored output: "@ + (if c.armor {
        "true"@
    } else {
        "false"@
    })
}

/// `needle` occurs somewhere in `hay`.
pub open spec fn seq_contains(hay: Seq<char>, needle: Seq<char>) -> bool {
    exists|k: int|
        0 <= k && k + needle.len() <= hay.len() && #[trigger] hay.subrange(k, k + needle.len())
            == needle
}

impl GpgConfig {
    /// Builds the configuration from the caller's arguments and the home
    /// directory the engine reports as its default.  The home directory is
    /// the caller's override when present, else the engine default; without
    /// either the configuration fails.  The output directory defaults to
    /// `<home_dir>/out`.
    pub fn new(
        homedir: Option<String>,
        outdir: Option<String>,
        outfile: String,
        armor: bool,
        default_key: Option<String>,
        engine_home_dir: Option<String>,
    ) -> (r: Result<GpgConfig, GpgError>)
        ensures
            match r {
                Ok(c) => {
                    &&& spec_home_dir(homedir, engine_home_dir) == Some(c.home_dir@)
                    &&& c.output_dir@ == match outdir {
                        Some(o) => o@,
                        None => c.home_dir@ + "/out"@,
                    }
                    &&& c.armor == armor
                    &&& c.default_key == default_key
                    &&& c.output_file == outfile
                },
                Err(e) => {
                    &&& spec_home_dir(homedir, engine_home_dir) is None
                    &&& e == GpgError::HomeDirNotFound
                },
            },
    {
        let home_dir: String = match homedir {
            Some(h) => h,
            None => match engine_home_dir {
                Some(h) => h,
                None => {
                    return Err(GpgError::HomeDirNotFound);
                },
            },
        };
        let output_dir: String = match outdir {
            Some(o) => o,
            None => {
                let mut d = home_dir.clone();
                d.append("/out");
                d
            },
        };
        Ok(
            GpgConfig {
                armor,
                default_key,
                home_dir,
                output_file: outfile,
                output_dir,
            },
        )
    }

    /// Renders general information about the library configuration from
    /// the engine's report; fails when the engine reports nothing for the
    /// protocol.
    pub fn get_info(
        &self,
        gpgme_version: &str,
        engine: &Option<EngineInfo>,
        data_dir: &Option<String>,
    ) -> (r: Result<String, GpgError>)
        ensures
            match *engine {
                Some(e) => match r {
                    Ok(s) => s@ == spec_info_block(*self, gpgme_version@, e, *data_dir),
                    Err(_) => false,
                },
                None => r == Err::<String, GpgError>(GpgError::EngineInfoNotFound),
            },
    {
        let e = match engine {
            Some(e) => e,
            None => {
                return Err(GpgError::EngineInfoNotFound);
            },
        };
        let mut out = String::from_str("GPGME version: ");
        out.append(gpgme_version);
        out.append("\nGPGME protocol: ");
        out.append(e.protocol.as_str());
        out.append("\nGPGME engine: ");
        push_opt_or_mark(&mut out, &e.path);
        out.append("\nGPGME engine version: ");
        push_opt_or_mark(&mut out, &e.version);
        out.append(" (>");
        push_opt_or_mark(&mut out, &e.required_version);
        out.append(")");
        out.append("\nGnuPG home directory: ");
        out.append(self.home_dir.as_str());
        out.append("\nGnuPG data directory: ");
        push_opt_or_mark(&mut out, data_dir);
        out.append("\nOutput directory: ");
        out.append(self.output_dir.as_str());
        out.append("\nDefault signing key: ");
        match &self.default_key {
            Some(k) => out.append(k.as_str()),
            None => out.append("not specified"),
        }
        out.append("\nArmored output: ");
        if self.armor {
            out.append("true");
        } else {
            out.append("false");
        }
        assert(out@ =~= spec_info_block(*self, gpgme_version@, *e, *data_dir));
        Ok(out)
    }
}

/// A needle that sits at some position of `hay` is contained in it.
proof fn lemma_contains_at(hay: Seq<char>, needle: Seq<char>, k: int)
    requires
        0 <= k,
        k + needle.len() <= hay.len(),
        hay.subrange(k, k + needle.len()) == needle,
    ensures
        seq_contains(hay, needle),
{
}

/// The informational block states the absence of a default signing key.
pub proof fn lemma_info_default_key_not_specified(
    c: GpgConfig,
    v: Seq<char>,
    e: EngineInfo,
    dd: Option<String>,
)
    requires
        c.default_key is None,
    ensures
        seq_contains(spec_info_block(c, v, e, dd), "Default signing key: not specified"@),
{
    reveal_strlit("Default signing key: not specified");
    reveal_strlit("\nDefault signing key: ");
    reveal_strlit("not specified");
    reveal_strlit("\nArmored output: ");
    let hay = spec_info_block(c, v, e, dd);
    let p = "GPGME version: "@ + v + "\nGPGME protocol: "@ + e.protocol@ + "\nGPGME engine: "@
        + opt_or_mark(e.path) + "\nGPGME engine version: "@ + opt_or_mark(e.version) + " (>"@
        + opt_or_mark(e.required_version) + ")"@ + "\nGnuPG home directory: "@ + c.home_dir@
        + "\nGnuPG data directory: "@ + opt_or_mark(dd) + "\nOutput directory: "@ + c.output_dir@;
    let needle = "Default signing key: not specified"@;
    let k = p.len() + 1;
    assert(hay.subrange(k as int, k as int + needle.len() as int) =~= needle);
    lemma_contains_at(hay, needle, k as int);
}

/// Appends an optional string, `?` when absent.
fn push_opt_or_mark(out: &mut String, o: &Option<String>)
    ensures
        final(out)@ == old(out)@ + opt_or_mark(*o),
{
    match o {
        Some(s) => out.append(s.as_str()),
        None => out.append("?"),
    }
}

} // verus!
