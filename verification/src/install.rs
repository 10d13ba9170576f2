//! The advanced daemon settings an operator picks for an install command.

use vstd::prelude::*;

use crate::text::{texts, trim_text, trimmed};

verus! {

/// What an install command is for.
#[derive(Clone, Copy, Debug, PartialEq, Eq, Structural)]
pub enum InstallCommandKind {
    /// A first install, with a placeholder for the daemon's key.
    Install,
    /// Re-applying settings to an installed daemon; carries no key.
    Reconfigure,
}

/// The operating system an install command targets.
#[derive(Clone, Copy, Debug, PartialEq, Eq, Structural)]
pub enum DaemonOs {
    Linux,
    MacOS,
    Windows,
    FreeBsd,
}

impl DaemonOs {
    pub open spec fn name(self) -> Seq<char> {
        match self {
            DaemonOs::Linux => "linux"@,
            DaemonOs::MacOS => "macos"@,
            DaemonOs::Windows => "windows"@,
            DaemonOs::FreeBsd => "freebsd"@,
        }
    }

    /// The lowercase name of the operating system.
    pub fn as_str(&self) -> (r: &'static str)
        ensures
            r@ == self.name(),
    {
        match self {
            DaemonOs::Linux => "linux",
            DaemonOs::MacOS => "macos",
            DaemonOs::Windows => "windows",
            DaemonOs::FreeBsd => "freebsd",
        }
    }
}

/// A request to email an install command to the requesting user.
#[derive(Debug)]
pub struct EmailInstallCommandRequest {
    /// The command exactly as shown.
    pub install_command: String,
    /// The operating system it targets, which picks the email's wording.
    pub os: DaemonOs,
}

/// The query of an install-command request: its purpose and the advanced
/// daemon settings; lists are comma-separated.
#[derive(Debug)]
pub struct InstallCommandQuery {
    pub purpose: InstallCommandKind,
    pub log_level: Option<String>,
    pub log_file: Option<String>,
    /// How often the daemon reports in, in seconds.
    pub heartbeat_interval: Option<u64>,
    pub bind_address: Option<String>,
    pub allow_self_signed_certs: Option<bool>,
    pub accept_invalid_scan_certs: Option<bool>,
    /// Comma-separated interface names.
    pub interfaces: Option<String>,
    /// Comma-separated credential tokens.
    pub credential_refs: Option<String>,
}

/// The client-settable daemon settings an install command carries; the
/// server fills in the rest from the daemon's record.
#[derive(Debug)]
pub struct DaemonArgs {
    pub log_level: Option<String>,
    pub log_file: Option<String>,
    pub heartbeat_interval: Option<u64>,
    pub bind_address: Option<String>,
    pub allow_self_signed_certs: Option<bool>,
    pub accept_invalid_scan_certs: Option<bool>,
    pub interfaces: Option<Vec<String>>,
}

/// The pieces of `s` between commas, as `str::split(',')` yields them.
pub open spec fn comma_pieces(s: Seq<char>) -> Seq<Seq<char>>
    decreases s.len(),
{
    if s.len() == 0 {
        seq![Seq::empty()]
    } else {
        let p = comma_pieces(s.drop_last());
        if s.last() == ',' {
            p.push(Seq::empty())
        } else {
            p.update(p.len() - 1, p.last().push(s.last()))
        }
    }
}

/// The non-empty trimmed pieces, in order.
pub open spec fn kept(ps: Seq<Seq<char>>) -> Seq<Seq<char>>
    decreases ps.len(),
{
    if ps.len() == 0 {
        Seq::empty()
    } else {
        let r = kept(ps.drop_last());
        if trimmed(ps.last()).len() > 0 {
            r.push(trimmed(ps.last()))
        } else {
            r
        }
    }
}

/// The entries of a comma-separated list: each piece trimmed, empty ones dropped.
pub open spec fn list_entries(s: Seq<char>) -> Seq<Seq<char>> {
    kept(comma_pieces(s))
}

proof fn lemma_pieces_nonempty(s: Seq<char>)
    ensures
        comma_pieces(s).len() >= 1,
    decreases s.len(),
{
    if s.len() > 0 {
        lemma_pieces_nonempty(s.drop_last());
    }
}

/// The entries of a comma-separated list: each piece trimmed, empty ones dropped.
pub fn split_list(s: &str) -> (r: Vec<String>)
    ensures
        texts(r@) == list_entries(s@),
{
    let n = s.unicode_len();
    let mut out: Vec<String> = Vec::new();
    let mut start: usize = 0;
    let mut i: usize = 0;
    proof {
        assert(s@.take(0) =~= Seq::<char>::empty());
    }
    while i < n
        invariant
            n == s@.len(),
            start <= i <= n,
            comma_pieces(s@.take(i as int)).len() >= 1,
            comma_pieces(s@.take(i as int)).last() == s@.subrange(start as int, i as int),
            texts(out@) == kept(comma_pieces(s@.take(i as int)).drop_last()),
        decreases n - i,
    {
        let c = s.get_char(i);
        let ghost before = comma_pieces(s@.take(i as int));
        proof {
            assert(s@.take(i + 1).drop_last() =~= s@.take(i as int));
            assert(s@.take(i + 1).last() == c);
            lemma_pieces_nonempty(s@.take(i as int));
        }
        if c == ',' {
            let piece = trim_text(s.substring_char(start, i));
            let ghost kept_before = texts(out@);
            if !piece.is_empty() {
                out.push(String::from_str(piece));
                proof {
                    assert(texts(out@) =~= kept_before.push(piece@));
                }
            }
            proof {
                let after = comma_pieces(s@.take(i + 1));
                assert(after == before.push(Seq::empty()));
                assert(after.drop_last() =~= before);
                assert(before.drop_last().push(before.last()) =~= before);
                assert(kept(before) == if trimmed(before.last()).len() > 0 {
                    kept(before.drop_last()).push(trimmed(before.last()))
                } else {
                    kept(before.drop_last())
                });
                assert(after.last() =~= s@.subrange(i + 1, i + 1));
            }
            start = i + 1;
        } else {
            proof {
                let after = comma_pieces(s@.take(i + 1));
                assert(after == before.update(before.len() - 1, before.last().push(c)));
                assert(after.drop_last() =~= before.drop_last());
                assert(after.last() =~= s@.subrange(start as int, i + 1));
            }
        }
        i = i + 1;
    }
    proof {
        assert(s@.take(i as int) =~= s@);
    }
    let ghost ps = comma_pieces(s@);
    let last = trim_text(s.substring_char(start, n));
    let ghost kept_before = texts(out@);
    if !last.is_empty() {
        out.push(String::from_str(last));
        proof {
            assert(texts(out@) =~= kept_before.push(last@));
        }
    }
    proof {
        assert(ps.drop_last().push(ps.last()) =~= ps);
    }
    out
}

fn opt_copy(s: &Option<String>) -> (r: Option<String>)
    ensures
        r == *s,
{
    match s {
        Some(t) => Some(t.clone()),
        None => None,
    }
}

impl InstallCommandQuery {
    /// The advanced settings as daemon arguments: copied as given, the
    /// interface list split into its entries.
    pub fn install_config(&self) -> (r: DaemonArgs)
        ensures
            r.log_level == self.log_level,
            r.log_file == self.log_file,
            r.heartbeat_interval == self.heartbeat_interval,
            r.bind_address == self.bind_address,
            r.allow_self_signed_certs == self.allow_self_signed_certs,
            r.accept_invalid_scan_certs == self.accept_invalid_scan_certs,
            match (r.interfaces, self.interfaces) {
                (Some(v), Some(s)) => texts(v@) == list_entries(s@),
                (None, None) => true,
                _ => false,
            },
    {
        let interfaces = match &self.interfaces {
            Some(s) => Some(split_list(s.as_str())),
            None => None,
        };
        DaemonArgs {
            log_level: opt_copy(&self.log_level),
            log_file: opt_copy(&self.log_file),
            heartbeat_interval: self.heartbeat_interval,
            bind_address: opt_copy(&self.bind_address),
            allow_self_signed_certs: self.allow_self_signed_certs,
            accept_invalid_scan_certs: self.accept_invalid_scan_certs,
            interfaces,
        }
    }

    /// The credential tokens the request lists, each trimmed, empty ones dropped.
    pub fn credential_tokens(&self) -> (r: Vec<String>)
        ensures
            match self.credential_refs {
                Some(s) => texts(r@) == list_entries(s@),
                None => r@.len() == 0,
            },
    {
        match &self.credential_refs {
            Some(s) => split_list(s.as_str()),
            None => Vec::new(),
        }
    }
}

} // verus!
