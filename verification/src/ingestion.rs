//! Captive-core ingestion: the configuration of the stellar-core process (its
//! TOML file and command line) and the records that ingestion hands out.
use vstd::prelude::*;
use crate::duration::Duration;
use crate::fmt::{dec, push_decimal, push_decimal_wide};
use crate::text::{push_char, replace_all, replace_text, str_chars, string_of, string_views};

verus! {

/// Where captive core writes its ledger metadata stream.
#[derive(Debug, Clone, PartialEq, Eq)]
pub enum CaptiveCoreOutputTarget {
    Stdout,
    /// A TCP socket, by its `ip:port` address text.
    TcpSocket(String),
}

/// How to run captive core. Paths are held as text.
#[derive(Debug, Clone)]
pub struct CaptiveCoreConfig {
    pub binary_path: String,
    pub network_passphrase: String,
    pub history_archive_urls: Vec<String>,
    pub working_dir: String,
    pub state_archive_dir: String,
    pub start_ledger: u32,
    pub heartbeat_timeout: Duration,
    pub restart_backoff: Duration,
    pub max_restart_attempts: u32,
    pub output_target: CaptiveCoreOutputTarget,
    /// Command arguments for the stellar-core process; `{config}` and
    /// `{start_ledger}` are placeholders.
    pub command_args: Vec<String>,
}

/// A character escaped for a TOML basic string: `\` and `"` get a backslash.
pub open spec fn toml_escaped_char(c: char) -> Seq<char> {
    if c == '\\' { seq!['\\', '\\'] } else if c == '"' { seq!['\\', '"'] } else { seq![c] }
}

/// `s` escaped for a TOML basic string.
pub open spec fn toml_escaped(s: Seq<char>) -> Seq<char>
    decreases s.len(),
{
    if s.len() == 0 { Seq::empty() } else { toml_escaped(s.drop_last()) + toml_escaped_char(s.last()) }
}

/// `value` escaped for a TOML basic string.
pub fn escape_toml(value: &str) -> (r: String)
    ensures
        r@ == toml_escaped(value@),
{
    let v = str_chars(value);
    let mut out = String::new();
    let mut i: usize = 0;
    while i < v.len()
        invariant
            v@ == value@,
            i <= v@.len(),
            out@ == toml_escaped(v@.subrange(0, i as int)),
        decreases v@.len() - i,
    {
        let c = v[i];
        assert(v@.subrange(0, i + 1).drop_last() =~= v@.subrange(0, i as int));
        if c == '\\' {
            push_char(&mut out, '\\');
            push_char(&mut out, '\\');
        } else if c == '"' {
            push_char(&mut out, '\\');
            push_char(&mut out, '"');
        } else {
            push_char(&mut out, c);
        }
        i += 1;
        assert(out@ =~= toml_escaped(v@.subrange(0, i as int)));
    }
    assert(v@.subrange(0, v@.len() as int) =~= v@);
    out
}

/// `dir` joined with a relative `name` the way std's `PathBuf::join` does on
/// Unix: a `/` is put between them unless `dir` is empty or already ends in one.
pub open spec fn joined_path(dir: Seq<char>, name: Seq<char>) -> Seq<char> {
    if dir.len() == 0 {
        name
    } else if dir.last() == '/' {
        dir + name
    } else {
        dir + seq!['/'] + name
    }
}

/// `dir` joined with the relative `name`.
pub fn join_path(dir: &str, name: &str) -> (r: String)
    ensures
        r@ == joined_path(dir@, name@),
{
    let d = str_chars(dir);
    let mut out = string_of(dir);
    if d.len() > 0 && d[d.len() - 1] != '/' {
        push_char(&mut out, '/');
    }
    out.append(name);
    proof {
        if d@.len() == 0 {
            assert(out@ =~= name@);
        }
    }
    out
}

/// The fixed head of the captive-core TOML with the passphrase and bucket path.
pub open spec fn toml_head(passphrase: Seq<char>, working_dir: Seq<char>) -> Seq<char> {
    "NODE_IS_VALIDATOR=false\nRUN_STANDALONE=false\nUNSAFE_QUORUM=true\nFAILURE_SAFETY=0\nHTTP_PORT=0\nPUBLIC_HTTP_PORT=false\nNETWORK_PASSPHRASE=\""@
        + toml_escaped(passphrase) + "\"\nBUCKET_DIR_PATH=\""@
        + toml_escaped(joined_path(working_dir, "buckets"@)) + "\"\n"@
}

/// One `[HISTORY.archive_<idx>]` table per archive URL, in order.
pub open spec fn toml_archives(urls: Seq<Seq<char>>) -> Seq<char>
    decreases urls.len(),
{
    if urls.len() == 0 {
        Seq::empty()
    } else {
        toml_archives(urls.drop_last()) + "\n[HISTORY.archive_"@ + dec((urls.len() - 1) as nat) + "]\nget=\""@
            + toml_escaped(urls.last()) + "\"\n"@
    }
}

/// The stellar-core TOML for a configuration.
pub open spec fn toml_text(c: CaptiveCoreConfig) -> Seq<char> {
    toml_head(c.network_passphrase@, c.working_dir@) + toml_archives(string_views(c.history_archive_urls@))
}

/// The arguments captive core runs with before placeholders are filled in:
/// the configured ones, or by default `run --conf {config} --start-at-ledger
/// {start_ledger} --metadata-output-stream <target>`.
pub open spec fn base_args(c: CaptiveCoreConfig) -> Seq<Seq<char>> {
    if c.command_args@.len() == 0 {
        seq!["run"@, "--conf"@, "{config}"@, "--start-at-ledger"@, "{start_ledger}"@,
            "--metadata-output-stream"@, match c.output_target {
                CaptiveCoreOutputTarget::Stdout => "stdout"@,
                CaptiveCoreOutputTarget::TcpSocket(a) => a@,
            }]
    } else {
        string_views(c.command_args@)
    }
}

/// An argument with `{config}` and then `{start_ledger}` filled in.
pub open spec fn filled_arg(arg: Seq<char>, config_path: Seq<char>, start_ledger: u32) -> Seq<char> {
    replace_all(replace_all(arg, "{config}"@, config_path), "{start_ledger}"@, dec(start_ledger as nat))
}

impl CaptiveCoreConfig {
    /// The defaults, with working directories under `temp_dir` (the system's
    /// temporary directory): stellar-core from the path, the testnet
    /// passphrase, no archives, ledger 1, a 15 s heartbeat timeout, a 5 s
    /// restart backoff, 3 restart attempts, output on stdout.
    pub fn defaults_in(temp_dir: &str) -> (r: Self)
        ensures
            r.binary_path@ == "stellar-core"@,
            r.network_passphrase@ == "Test SDF Network ; September 2015"@,
            r.history_archive_urls@.len() == 0,
            r.working_dir@ == joined_path(temp_dir@, "xlm-ns-captive-core"@),
            r.state_archive_dir@ == joined_path(temp_dir@, "xlm-ns-captive-core-archive"@),
            r.start_ledger == 1,
            r.heartbeat_timeout@ == 15_000_000_000,
            r.restart_backoff@ == 5_000_000_000,
            r.max_restart_attempts == 3,
            r.output_target == CaptiveCoreOutputTarget::Stdout,
            r.command_args@.len() == 0,
    {
        CaptiveCoreConfig {
            binary_path: String::from_str("stellar-core"),
            network_passphrase: String::from_str("Test SDF Network ; September 2015"),
            history_archive_urls: Vec::new(),
            working_dir: join_path(temp_dir, "xlm-ns-captive-core"),
            state_archive_dir: join_path(temp_dir, "xlm-ns-captive-core-archive"),
            start_ledger: 1,
            heartbeat_timeout: Duration::from_secs(15),
            restart_backoff: Duration::from_secs(5),
            max_restart_attempts: 3,
            output_target: CaptiveCoreOutputTarget::Stdout,
            command_args: Vec::new(),
        }
    }

    /// The stellar-core TOML for this configuration.
    pub fn rendered_toml(&self) -> (r: String)
        ensures
            r@ == toml_text(*self),
    {
        let mut toml = String::from_str("NODE_IS_VALIDATOR=false\nRUN_STANDALONE=false\nUNSAFE_QUORUM=true\nFAILURE_SAFETY=0\nHTTP_PORT=0\nPUBLIC_HTTP_PORT=false\nNETWORK_PASSPHRASE=\"");
        let pass = escape_toml(self.network_passphrase.as_str());
        toml.append(pass.as_str());
        toml.append("\"\nBUCKET_DIR_PATH=\"");
        let buckets = join_path(self.working_dir.as_str(), "buckets");
        let b = escape_toml(buckets.as_str());
        toml.append(b.as_str());
        toml.append("\"\n");
        let ghost head = toml@;
        let urls = &self.history_archive_urls;
        let mut idx: usize = 0;
        assert(string_views(urls@).subrange(0, 0) =~= Seq::<Seq<char>>::empty());
        while idx < urls.len()
            invariant
                idx <= urls@.len(),
                toml@ == head + toml_archives(string_views(urls@).subrange(0, idx as int)),
            decreases urls@.len() - idx,
        {
            let ghost pre = string_views(urls@).subrange(0, idx as int);
            let ghost next = string_views(urls@).subrange(0, idx + 1);
            assert(next.drop_last() =~= pre);
            assert(next.last() == urls@[idx as int]@);
            toml.append("\n[HISTORY.archive_");
            push_decimal(&mut toml, idx as u64);
            toml.append("]\nget=\"");
            let u = escape_toml(urls[idx].as_str());
            toml.append(u.as_str());
            toml.append("\"\n");
            idx += 1;
        }
        assert(string_views(urls@).subrange(0, urls@.len() as int) =~= string_views(urls@));
        toml
    }

    /// The stellar-core arguments, with `{config}` replaced by `config_path` and
    /// then `{start_ledger}` by the ledger number.
    pub fn command_line(&self, config_path: &str, start_ledger: u32) -> (r: Vec<String>)
        ensures
            string_views(r@) == base_args(*self).map_values(|a: Seq<char>| filled_arg(a, config_path@, start_ledger)),
    {
        let base: Vec<String> = if self.command_args.len() == 0 {
            let target = match &self.output_target {
                CaptiveCoreOutputTarget::Stdout => String::from_str("stdout"),
                CaptiveCoreOutputTarget::TcpSocket(address) => address.clone(),
            };
            let b: Vec<String> = vec![
                String::from_str("run"),
                String::from_str("--conf"),
                String::from_str("{config}"),
                String::from_str("--start-at-ledger"),
                String::from_str("{start_ledger}"),
                String::from_str("--metadata-output-stream"),
                target,
            ];
            assert(string_views(b@) =~= base_args(*self));
            b
        } else {
            let mut b: Vec<String> = Vec::new();
            let mut k: usize = 0;
            while k < self.command_args.len()
                invariant
                    k <= self.command_args@.len(),
                    string_views(b@) == string_views(self.command_args@).subrange(0, k as int),
                decreases self.command_args@.len() - k,
            {
                let ghost before = b@;
                let a = string_of(self.command_args[k].as_str());
                b.push(a);
                assert(string_views(b@) =~= string_views(before).push(self.command_args@[k as int]@));
                k += 1;
                assert(string_views(b@) =~= string_views(self.command_args@).subrange(0, k as int));
            }
            assert(string_views(self.command_args@).subrange(0, k as int) =~= string_views(self.command_args@));
            b
        };
        let ledger = {
            let mut t = String::new();
            push_decimal(&mut t, start_ledger as u64);
            assert(Seq::<char>::empty() + dec(start_ledger as nat) =~= dec(start_ledger as nat));
            t
        };
        proof {
            reveal_strlit("{config}");
            reveal_strlit("{start_ledger}");
        }
        let mut out: Vec<String> = Vec::new();
        let mut i: usize = 0;
        while i < base.len()
            invariant
                i <= base@.len(),
                string_views(base@) == base_args(*self),
                ledger@ == dec(start_ledger as nat),
                "{config}"@.len() > 0,
                "{start_ledger}"@.len() > 0,
                string_views(out@) == base_args(*self).subrange(0, i as int).map_values(|a: Seq<char>| filled_arg(a, config_path@, start_ledger)),
            decreases base@.len() - i,
        {
            let first = replace_text(base[i].as_str(), "{config}", config_path);
            let filled = replace_text(first.as_str(), "{start_ledger}", ledger.as_str());
            assert(filled@ == filled_arg(base_args(*self)[i as int], config_path@, start_ledger));
            let ghost before = out@;
            out.push(filled);
            assert(string_views(out@) =~= string_views(before).push(filled_arg(base_args(*self)[i as int], config_path@, start_ledger)));
            i += 1;
            assert(string_views(out@) =~= base_args(*self).subrange(0, i as int).map_values(|a: Seq<char>| filled_arg(a, config_path@, start_ledger)));
        }
        assert(base_args(*self).subrange(0, i as int) =~= base_args(*self));
        out
    }
}

/// Where a ledger came from.
#[derive(Debug, Clone, Copy, PartialEq, Eq, Structural)]
pub enum IngestionSource {
    CaptiveCore,
    Remote,
}

/// A ledger handed out by ingestion: its decoded payload, its raw XDR, its
/// sequence when known, and its source.
#[derive(Debug, Clone)]
pub struct IngestedLedger<T> {
    pub payload: T,
    pub raw_xdr: Vec<u8>,
    pub ledger_sequence: Option<u32>,
    pub source: IngestionSource,
}

/// The big-endian number that four bytes spell.
pub open spec fn be_u32(b: Seq<u8>) -> nat {
    (b[0] as nat) * 16777216 + (b[1] as nat) * 65536 + (b[2] as nat) * 256 + (b[3] as nat)
}

/// The payload length that a ledger frame's four-byte header announces: the
/// metadata stream frames each ledger as a big-endian `u32` length followed by
/// that many bytes of XDR.
pub fn frame_payload_length(header: &[u8; 4]) -> (r: u32)
    ensures
        r == be_u32(header@),
{
    let b0 = header[0] as u32;
    let b1 = header[1] as u32;
    let b2 = header[2] as u32;
    let b3 = header[3] as u32;
    b0 * 16777216 + b1 * 65536 + b2 * 256 + b3
}

/// The failure reported when no ledger frame arrives within the heartbeat
/// timeout.
pub fn heartbeat_timeout_message(timeout: Duration) -> (r: String)
    ensures
        r@ == "captive core heartbeat timed out after "@ + dec(timeout@ / 1_000_000) + " ms"@,
{
    let mut r = string_of("captive core heartbeat timed out after ");
    push_decimal_wide(&mut r, timeout.as_millis());
    r.append(" ms");
    r
}

} // verus!
