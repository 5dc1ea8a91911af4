//! Which detect manifest is in use: one on disk where a path is configured and
//! the file is good, else the built-in one.
//!
//! A file is compiled again only when it has changed. One that cannot be read
//! or compiled never takes detection down: the last good one stays in use, or
//! the built-in one where there is none, and either way a warning says so.
use std::sync::Arc;

use vstd::prelude::*;

use crate::hash;
use crate::hash::sha256_hex;
use crate::text;
use crate::text::{concat2, concat4, owned, trimmed};
use crate::time::Timestamp;

verus! {

/// The variable that names the file.
pub const MANIFEST_OVERRIDE_PATH_ENV: &'static str = "ENGINE_TERMINAL_MANIFEST_OVERRIDE";

/// The path that the variable's value names: none where it is unset or blank.
pub fn override_path_of(value: Option<String>) -> (r: Option<String>)
    ensures
        text::opt_text(r) == (match value {
            Some(v) => if text::is_blank(v@) {
                None
            } else {
                Some(text::trim(v@))
            },
            None => None,
        }),
{
    match value {
        Some(v) => {
            let path = trimmed(v.as_str());
            proof {
                text::lemma_trim_blank(v@);
            }
            if path.as_str().is_empty() {
                None
            } else {
                Some(path)
            }
        },
        None => None,
    }
}

/// Where a manifest comes from.
#[derive(Debug, PartialEq, Eq)]
pub enum ManifestOrigin {
    /// It is the built-in one.
    Embedded,
    /// It is the file at this path.
    Override(String),
}

impl Clone for ManifestOrigin {
    fn clone(&self) -> (r: Self)
        ensures
            r == *self,
    {
        match self {
            ManifestOrigin::Embedded => ManifestOrigin::Embedded,
            ManifestOrigin::Override(path) => ManifestOrigin::Override(path.clone()),
        }
    }
}

/// A compiled manifest, the digest of its source and where it comes from.
#[derive(Debug)]
pub struct ResolvedManifest<M> {
    pub manifest: Arc<M>,
    pub digest: String,
    pub origin: ManifestOrigin,
}

impl<M> Clone for ResolvedManifest<M> {
    fn clone(&self) -> (r: Self)
        ensures
            r == *self,
    {
        ResolvedManifest {
            manifest: self.manifest.clone(),
            digest: self.digest.clone(),
            origin: self.origin.clone(),
        }
    }
}

impl<M> ResolvedManifest<M> {
    /// Whether this is the file at `path`.
    pub open spec fn is_override_of(self, path: Seq<char>) -> bool {
        self.origin matches ManifestOrigin::Override(p) && p@ == path
    }

    /// Whether this is the built-in manifest with this source.
    pub open spec fn is_built_in(self, source: Seq<char>) -> bool {
        self.origin == ManifestOrigin::Embedded && self.digest@ == digest_of(source)
    }
}

/// The digest of a source.
pub open spec fn digest_of(source: Seq<char>) -> Seq<char> {
    hash::sha256_hex_of(vstd::utf8::encode_utf8(source))
}

/// The last file that compiled, and when it had last changed.
#[derive(Debug)]
pub struct LastGood<M> {
    pub path: String,
    pub mtime: Timestamp,
    pub resolved: ResolvedManifest<M>,
}

/// What is in use, and what there is to warn of.
#[derive(Debug)]
pub struct Resolution<M> {
    pub resolved: ResolvedManifest<M>,
    pub warning: Option<String>,
}

/// Resolves which manifest is in use.
#[derive(Debug)]
pub struct ManifestSource<M> {
    override_path: Option<String>,
    embedded: Option<ResolvedManifest<M>>,
    last_good: Option<LastGood<M>>,
}

/// What is in use after a bad file.
pub open spec fn fallback_clause(kept: bool) -> Seq<char> {
    if kept {
        "keeping the last-good compiled override manifest"@
    } else {
        "no last-good override manifest yet; falling back to the embedded manifest"@
    }
}

/// The three ways in which a file can be bad.
#[derive(Clone, Copy, Debug, PartialEq, Eq)]
pub enum BadOverride {
    NoMetadata,
    Unreadable,
    Uncompilable,
}

/// What a warning says before it names the path.
pub open spec fn warning_head(bad: BadOverride) -> Seq<char> {
    match bad {
        BadOverride::NoMetadata =>
            "terminal::manifest_source: WARNING override manifest path '"@,
        _ => "terminal::manifest_source: WARNING override manifest at '"@,
    }
}

/// What a warning says between the path and the reason.
pub open spec fn warning_body(bad: BadOverride) -> Seq<char> {
    match bad {
        BadOverride::NoMetadata => "' has no metadata ("@,
        BadOverride::Unreadable => "' could not be read ("@,
        BadOverride::Uncompilable => "' failed to compile ("@,
    }
}

/// What a warning says.
pub open spec fn warning_text(
    bad: BadOverride,
    path: Seq<char>,
    why: Seq<char>,
    kept: bool,
) -> Seq<char> {
    warning_head(bad) + path + warning_body(bad) + why + "); "@ + fallback_clause(kept)
}

/// What a warning says.
pub fn warning(bad: BadOverride, path: &str, why: &str, kept: bool) -> (r: String)
    ensures
        r@ == warning_text(bad, path@, why@, kept),
{
    let head = match bad {
        BadOverride::NoMetadata => "terminal::manifest_source: WARNING override manifest path '",
        _ => "terminal::manifest_source: WARNING override manifest at '",
    };
    let body = match bad {
        BadOverride::NoMetadata => "' has no metadata (",
        BadOverride::Unreadable => "' could not be read (",
        BadOverride::Uncompilable => "' failed to compile (",
    };
    let clause = if kept {
        "keeping the last-good compiled override manifest"
    } else {
        "no last-good override manifest yet; falling back to the embedded manifest"
    };
    let start = concat4(head, path, body, why);
    concat2(concat2(start.as_str(), "); ").as_str(), clause)
}

impl<M> ManifestSource<M> {
    /// The configured path.
    pub closed spec fn configured(self) -> Option<String> {
        self.override_path
    }

    /// The built-in manifest, once it has been compiled.
    pub closed spec fn built_in(self) -> Option<ResolvedManifest<M>> {
        self.embedded
    }

    /// The last file that compiled.
    pub closed spec fn good(self) -> Option<LastGood<M>> {
        self.last_good
    }

    /// Whether the file at `path` has compiled before.
    pub open spec fn keeps(self, path: Seq<char>) -> bool {
        self.good() matches Some(g) && g.path@ == path
    }

    /// Whether what has been kept is what this source may serve: the file kept
    /// is the configured one, and the built-in manifest is that of `source`.
    pub open spec fn consistent(self, source: Seq<char>) -> bool {
        &&& self.good() matches Some(g) ==> self.configured() is Some && g.path@
            == self.configured()->Some_0@ && g.resolved.is_override_of(g.path@)
        &&& self.built_in() matches Some(e) ==> e.is_built_in(source)
    }

    /// A source for the file at a path, or for the built-in manifest alone.
    pub fn new(override_path: Option<String>) -> (r: Self)
        ensures
            r.configured() == override_path,
            r.built_in() is None,
            r.good() is None,
            forall|source: Seq<char>| #[trigger] r.consistent(source),
    {
        ManifestSource { override_path, embedded: None, last_good: None }
    }

    /// Whether `manifest` is the built-in one, and `after` this source once it
    /// has been asked for: it is compiled the first time and kept.
    pub open spec fn serves_embedded<C: Fn(&str) -> Result<M, String>>(
        self,
        source: Seq<char>,
        compile: C,
        after: Self,
        manifest: ResolvedManifest<M>,
    ) -> bool {
        match self.built_in() {
            Some(e) => manifest == e && after == self,
            None => {
                &&& exists|s: &str, m: M| #[trigger]
                    compile.ensures((s,), Ok::<M, String>(m)) && s@ == source && *manifest.manifest
                        == m
                &&& manifest.digest@ == digest_of(source)
                &&& manifest.origin == ManifestOrigin::Embedded
                &&& after.built_in() == Some(manifest)
                &&& after.good() == self.good()
                &&& after.configured() == self.configured()
            },
        }
    }

    /// Whether `out` is what is in use when the file at `path` is bad.
    pub open spec fn serves_fallback<C: Fn(&str) -> Result<M, String>>(
        self,
        bad: BadOverride,
        path: Seq<char>,
        why: Seq<char>,
        source: Seq<char>,
        compile: C,
        after: Self,
        out: Resolution<M>,
    ) -> bool {
        &&& text::opt_text(out.warning) == Some(warning_text(bad, path, why, self.keeps(path)))
        &&& if self.keeps(path) {
            out.resolved == self.good()->Some_0.resolved && after == self
        } else {
            self.serves_embedded(source, compile, after, out.resolved)
        }
    }

    /// Whether `out` is what is in use after the text of the file at `path`,
    /// last changed at `mtime`, has been read as `got`.
    pub open spec fn serves_read<C: Fn(&str) -> Result<M, String>>(
        self,
        path: Seq<char>,
        mtime: Timestamp,
        got: Result<String, String>,
        source: Seq<char>,
        compile: C,
        after: Self,
        out: Resolution<M>,
    ) -> bool {
        match got {
            Err(why) => self.serves_fallback(
                BadOverride::Unreadable,
                path,
                why@,
                source,
                compile,
                after,
                out,
            ),
            Ok(src) => exists|s: &str, c: Result<M, String>| #[trigger]
                compile.ensures((s,), c) && s@ == src@ && match c {
                    Err(why) => self.serves_fallback(
                        BadOverride::Uncompilable,
                        path,
                        why@,
                        source,
                        compile,
                        after,
                        out,
                    ),
                    Ok(m) => {
                        &&& out.warning is None
                        &&& *out.resolved.manifest == m
                        &&& out.resolved.digest@ == digest_of(src@)
                        &&& out.resolved.origin matches ManifestOrigin::Override(p) && p@ == path
                        &&& after.good() matches Some(g) && g.path@ == path && g.mtime == mtime
                            && g.resolved == out.resolved
                        &&& after.built_in() == self.built_in()
                        &&& after.configured() == self.configured()
                    },
                },
        }
    }

    /// Whether the file at `path`, last changed at `mtime`, is the last one
    /// that compiled.
    pub open spec fn unchanged(self, path: Seq<char>, mtime: Timestamp) -> bool {
        self.good() matches Some(g) && g.path@ == path && g.mtime.at() == mtime.at()
    }

    /// Whether `out` is what is in use, and `after` this source afterwards.
    pub open spec fn serves<
        S: Fn(&str) -> Result<Timestamp, String>,
        F: Fn(&str) -> Result<String, String>,
        C: Fn(&str) -> Result<M, String>,
    >(
        self,
        stat: S,
        read: F,
        compile: C,
        source: Seq<char>,
        after: Self,
        out: Resolution<M>,
    ) -> bool {
        match self.configured() {
            None => out.warning is None && self.serves_embedded(
                source,
                compile,
                after,
                out.resolved,
            ),
            Some(path) => exists|p: &str, st: Result<Timestamp, String>| #[trigger]
                stat.ensures((p,), st) && p@ == path@ && match st {
                    Err(why) => self.serves_fallback(
                        BadOverride::NoMetadata,
                        path@,
                        why@,
                        source,
                        compile,
                        after,
                        out,
                    ),
                    Ok(mtime) => if self.unchanged(path@, mtime) {
                        &&& out.warning is None
                        &&& out.resolved == self.good()->Some_0.resolved
                        &&& after == self
                    } else {
                        exists|q: &str, got: Result<String, String>| #[trigger]
                            read.ensures((q,), got) && q@ == path@ && self.serves_read(
                                path@,
                                mtime,
                                got,
                                source,
                                compile,
                                after,
                                out,
                            )
                    },
                },
        }
    }

    /// The built-in manifest, compiled the first time.
    fn serve_embedded<C: Fn(&str) -> Result<M, String>>(&mut self, source: &str, compile: &C) -> (r:
        ResolvedManifest<M>)
        requires
            forall|s: &str| compile.requires((s,)),
            forall|s: &str, c: Result<M, String>| #[trigger]
                compile.ensures((s,), c) && s@ == source@ ==> c is Ok,
        ensures
            old(self).serves_embedded(source@, *compile, *final(self), r),
    {
        match &self.embedded {
            Some(e) => {
                return e.clone();
            },
            None => {},
        }
        let compiled = (*compile)(source);
        assert(compile.ensures((source,), compiled));
        let m = match compiled {
            Ok(m) => m,
            Err(_) => {
                assert(false);
                vstd::pervasive::unreached()
            },
        };
        let resolved = ResolvedManifest {
            manifest: Arc::new(m),
            digest: sha256_hex(source.as_bytes()),
            origin: ManifestOrigin::Embedded,
        };
        self.embedded = Some(resolved.clone());
        resolved
    }

    /// What is in use when the file at `path` is bad.
    fn serve_fallback<C: Fn(&str) -> Result<M, String>>(
        &mut self,
        bad: BadOverride,
        path: &str,
        why: &str,
        source: &str,
        compile: &C,
    ) -> (r: Resolution<M>)
        requires
            forall|s: &str| compile.requires((s,)),
            forall|s: &str, c: Result<M, String>| #[trigger]
                compile.ensures((s,), c) && s@ == source@ ==> c is Ok,
        ensures
            old(self).serves_fallback(bad, path@, why@, source@, *compile, *final(self), r),
    {
        match &self.last_good {
            Some(g) => {
                if *g.path.as_str() == *path {
                    return Resolution {
                        resolved: g.resolved.clone(),
                        warning: Some(warning(bad, path, why, true)),
                    };
                }
            },
            None => {},
        }
        let said = warning(bad, path, why, false);
        let resolved = self.serve_embedded(source, compile);
        Resolution { resolved, warning: Some(said) }
    }

    /// Which manifest is in use. `stat` tells when a file was last changed,
    /// `read` gives its text, `compile` makes a manifest of a text, and
    /// `embedded_source` is the text of the built-in manifest, which compiles.
    pub fn resolve<
        S: Fn(&str) -> Result<Timestamp, String>,
        F: Fn(&str) -> Result<String, String>,
        C: Fn(&str) -> Result<M, String>,
    >(&mut self, stat: S, read: F, compile: C, embedded_source: &str) -> (r: Resolution<M>)
        requires
            forall|s: &str| stat.requires((s,)),
            forall|s: &str| read.requires((s,)),
            forall|s: &str| compile.requires((s,)),
            forall|s: &str, c: Result<M, String>| #[trigger]
                compile.ensures((s,), c) && s@ == embedded_source@ ==> c is Ok,
        ensures
            old(self).serves(stat, read, compile, embedded_source@, *final(self), r),
            final(self).configured() == old(self).configured(),
            old(self).consistent(embedded_source@) ==> final(self).consistent(embedded_source@),
    {
        let path = match &self.override_path {
            None => {
                let resolved = self.serve_embedded(embedded_source, &compile);
                return Resolution { resolved, warning: None };
            },
            Some(path) => path.clone(),
        };
        let p = path.as_str();
        let st = stat(p);
        assert(stat.ensures((p,), st));
        let mtime = match st {
            Err(why) => {
                return self.serve_fallback(
                    BadOverride::NoMetadata,
                    p,
                    why.as_str(),
                    embedded_source,
                    &compile,
                );
            },
            Ok(mtime) => mtime,
        };
        match &self.last_good {
            Some(g) => {
                if *g.path.as_str() == *p && g.mtime.unix_nanos() == mtime.unix_nanos() {
                    return Resolution { resolved: g.resolved.clone(), warning: None };
                }
            },
            None => {},
        }
        let got = read(p);
        assert(read.ensures((p,), got));
        let src = match got {
            Err(why) => {
                return self.serve_fallback(
                    BadOverride::Unreadable,
                    p,
                    why.as_str(),
                    embedded_source,
                    &compile,
                );
            },
            Ok(src) => src,
        };
        let s = src.as_str();
        let compiled = compile(s);
        assert(compile.ensures((s,), compiled));
        match compiled {
            Err(why) => self.serve_fallback(
                BadOverride::Uncompilable,
                p,
                why.as_str(),
                embedded_source,
                &compile,
            ),
            Ok(m) => {
                let resolved = ResolvedManifest {
                    manifest: Arc::new(m),
                    digest: sha256_hex(s.as_bytes()),
                    origin: ManifestOrigin::Override(owned(p)),
                };
                self.last_good = Some(
                    LastGood { path: owned(p), mtime, resolved: resolved.clone() },
                );
                Resolution { resolved, warning: None }
            },
        }
    }
}

/// A bad file never takes detection down in silence: the file that compiled
/// last stays in use, and there is a warning.
pub proof fn law_last_good_stays_in_use<M, C: Fn(&str) -> Result<M, String>>(
    before: ManifestSource<M>,
    bad: BadOverride,
    path: Seq<char>,
    why: Seq<char>,
    source: Seq<char>,
    compile: C,
    after: ManifestSource<M>,
    out: Resolution<M>,
)
    requires
        before.serves_fallback(bad, path, why, source, compile, after, out),
        before.keeps(path),
    ensures
        out.resolved == before.good()->Some_0.resolved,
        out.warning is Some,
        after == before,
{
}

/// Without a configured file, the built-in manifest is in use and nothing on
/// disk is looked at: what any file holds makes no difference.
pub proof fn law_no_override_is_built_in<
    M,
    S: Fn(&str) -> Result<Timestamp, String>,
    F: Fn(&str) -> Result<String, String>,
    C: Fn(&str) -> Result<M, String>,
>(
    before: ManifestSource<M>,
    stat: S,
    read: F,
    compile: C,
    source: Seq<char>,
    after: ManifestSource<M>,
    out: Resolution<M>,
)
    requires
        before.configured() is None,
        before.serves(stat, read, compile, source, after, out),
    ensures
        before.serves_embedded(source, compile, after, out.resolved),
        out.warning is None,
{
}

/// Every call leaves a consistent source consistent, and serves either the
/// configured file or the built-in manifest.
pub proof fn law_source_stays_consistent<
    M,
    S: Fn(&str) -> Result<Timestamp, String>,
    F: Fn(&str) -> Result<String, String>,
    C: Fn(&str) -> Result<M, String>,
>(
    before: ManifestSource<M>,
    stat: S,
    read: F,
    compile: C,
    source: Seq<char>,
    after: ManifestSource<M>,
    out: Resolution<M>,
)
    requires
        before.consistent(source),
        before.serves(stat, read, compile, source, after, out),
    ensures
        after.consistent(source),
        after.configured() == before.configured(),
        out.resolved.is_built_in(source) || (before.configured() matches Some(path)
            && out.resolved.is_override_of(path@)),
{
}

/// Once the configured file has compiled, every later call serves it, as it
/// is now or as it last compiled.
pub proof fn law_good_file_is_never_lost<
    M,
    S: Fn(&str) -> Result<Timestamp, String>,
    F: Fn(&str) -> Result<String, String>,
    C: Fn(&str) -> Result<M, String>,
>(
    before: ManifestSource<M>,
    stat: S,
    read: F,
    compile: C,
    source: Seq<char>,
    after: ManifestSource<M>,
    out: Resolution<M>,
)
    requires
        before.consistent(source),
        before.good() is Some,
        before.serves(stat, read, compile, source, after, out),
    ensures
        after.good() is Some,
        out.resolved.is_override_of(before.configured()->Some_0@),
        after.good()->Some_0.resolved == out.resolved,
        out.warning is Some ==> out.resolved == before.good()->Some_0.resolved,
{
}

/// One call in a history of calls of one source.
pub struct Call<M, S, F, C> {
    pub stat: S,
    pub read: F,
    pub compile: C,
    pub out: Resolution<M>,
}

/// Whether the call at `i` of a history leads from the state before it to the
/// state after it.
pub open spec fn leads<
    M,
    S: Fn(&str) -> Result<Timestamp, String>,
    F: Fn(&str) -> Result<String, String>,
    C: Fn(&str) -> Result<M, String>,
>(states: Seq<ManifestSource<M>>, calls: Seq<Call<M, S, F, C>>, source: Seq<char>, i: int) -> bool {
    states[i].serves(
        calls[i].stat,
        calls[i].read,
        calls[i].compile,
        source,
        states[i + 1],
        calls[i].out,
    )
}

/// Over any number of calls, whatever becomes of the file between them: a
/// source that begins consistent stays so and keeps its path, and once its file
/// has compiled, it serves nothing but that file.
pub proof fn law_good_file_survives_any_history<
    M,
    S: Fn(&str) -> Result<Timestamp, String>,
    F: Fn(&str) -> Result<String, String>,
    C: Fn(&str) -> Result<M, String>,
>(
    states: Seq<ManifestSource<M>>,
    calls: Seq<Call<M, S, F, C>>,
    source: Seq<char>,
    from: int,
    to: int,
)
    requires
        states.len() == calls.len() + 1,
        states[0].consistent(source),
        forall|i: int| 0 <= i < calls.len() ==> #[trigger] leads(states, calls, source, i),
        0 <= from <= to < calls.len(),
    ensures
        states[to].consistent(source),
        states[to + 1].consistent(source),
        states[to + 1].configured() == states[0].configured(),
        states[from].good() is Some ==> states[to].good() is Some
            && calls[to].out.resolved.is_override_of(states[0].configured()->Some_0@),
    decreases to,
{
    if to > 0 {
        if from < to {
            law_good_file_survives_any_history(states, calls, source, from, to - 1);
        } else {
            law_good_file_survives_any_history(states, calls, source, to - 1, to - 1);
        }
        assert(leads(states, calls, source, to - 1));
    }
    assert(leads(states, calls, source, to));
    let c = calls[to];
    law_source_stays_consistent(
        states[to],
        c.stat,
        c.read,
        c.compile,
        source,
        states[to + 1],
        c.out,
    );
    if states[to].good() is Some {
        law_good_file_is_never_lost(
            states[to],
            c.stat,
            c.read,
            c.compile,
            source,
            states[to + 1],
            c.out,
        );
    }
    if to > 0 && from < to && states[from].good() is Some {
        let b = calls[to - 1];
        law_good_file_is_never_lost(
            states[to - 1],
            b.stat,
            b.read,
            b.compile,
            source,
            states[to],
            b.out,
        );
    }
}

/// The variable names a path unless it is unset or blank, and then the path
/// without the white space around it.
pub proof fn law_override_path_is_the_trimmed_value(
    value: Option<String>,
    shown: &str,
    path: String,
    r: Option<String>,
)
    requires
        override_path_of.ensures((value,), r),
        value is Some ==> shown@ == value->0@,
        trimmed.ensures((shown,), path),
    ensures
        value is None ==> r is None,
        value is Some && path@.len() == 0 ==> r is None,
        value is Some && path@.len() > 0 ==> r is Some && r->0@ == path@,
{
    text::lemma_trim_blank(shown@);
}

/// A warning names the path, the reason and what is in use instead.
pub proof fn law_warning_names_path_and_reason(
    bad: BadOverride,
    path: &str,
    why: &str,
    kept: bool,
    r: String,
)
    requires
        warning.ensures((bad, path, why, kept), r),
    ensures
        ({
            let clause = if kept {
                "); keeping the last-good compiled override manifest"@
            } else {
                "); no last-good override manifest yet; falling back to the embedded manifest"@
            };
            let head = "terminal::manifest_source: WARNING override manifest "@;
            match bad {
                BadOverride::NoMetadata => r@ == head + "path '"@ + path@ + "' has no metadata ("@
                    + why@ + clause,
                BadOverride::Unreadable => r@ == head + "at '"@ + path@
                    + "' could not be read ("@ + why@ + clause,
                BadOverride::Uncompilable => r@ == head + "at '"@ + path@
                    + "' failed to compile ("@ + why@ + clause,
            }
        }),
{
    reveal_strlit("terminal::manifest_source: WARNING override manifest ");
    reveal_strlit("terminal::manifest_source: WARNING override manifest path '");
    reveal_strlit("terminal::manifest_source: WARNING override manifest at '");
    reveal_strlit("path '");
    reveal_strlit("at '");
    reveal_strlit("); ");
    reveal_strlit("keeping the last-good compiled override manifest");
    reveal_strlit("no last-good override manifest yet; falling back to the embedded manifest");
    reveal_strlit("); keeping the last-good compiled override manifest");
    reveal_strlit("); no last-good override manifest yet; falling back to the embedded manifest");
    let head = "terminal::manifest_source: WARNING override manifest "@;
    assert(head + "path '"@ =~= warning_head(BadOverride::NoMetadata));
    assert(head + "at '"@ =~= warning_head(BadOverride::Unreadable));
    assert("); "@ + fallback_clause(true)
        =~= "); keeping the last-good compiled override manifest"@);
    assert("); "@ + fallback_clause(false)
        =~= "); no last-good override manifest yet; falling back to the embedded manifest"@);
    let clause = "); "@ + fallback_clause(kept);
    assert(r@ =~= warning_head(bad) + path@ + warning_body(bad) + why@ + clause);
}

/// A configured file that has changed since it last compiled, or never did, and
/// that is there, can be read and compiles, is in use from then on: under its
/// path, with the digest of its text, without a warning.
pub proof fn law_new_file_is_taken_up<
    M,
    S: Fn(&str) -> Result<Timestamp, String>,
    F: Fn(&str) -> Result<String, String>,
    C: Fn(&str) -> Result<M, String>,
>(
    source: &mut ManifestSource<M>,
    stat: S,
    read: F,
    compile: C,
    embedded_source: &str,
    path: Seq<char>,
    mtime: Timestamp,
    src: Seq<char>,
    m: M,
    out: Resolution<M>,
)
    requires
        old(source).configured() is Some && old(source).configured()->0@ == path,
        forall|s: &str, st: Result<Timestamp, String>| #[trigger]
            stat.ensures((s,), st) && s@ == path ==> st == Ok::<Timestamp, String>(mtime),
        forall|s: &str, got: Result<String, String>| #[trigger]
            read.ensures((s,), got) && s@ == path ==> got is Ok && got->Ok_0@ == src,
        forall|s: &str, c: Result<M, String>| #[trigger]
            compile.ensures((s,), c) && s@ == src ==> c == Ok::<M, String>(m),
        old(source).good() matches Some(g) ==> g.path@ != path || g.mtime.at() != mtime.at(),
        ManifestSource::<M>::resolve::<S, F, C>.ensures(
            (source, stat, read, compile, embedded_source),
            out,
        ),
    ensures
        out.warning is None,
        *out.resolved.manifest == m,
        out.resolved.digest@ == hash::sha256_hex_of(vstd::utf8::encode_utf8(src)),
        out.resolved.origin matches ManifestOrigin::Override(p) && p@ == path,
        final(source).good() matches Some(g) && g.path@ == path && g.mtime == mtime && g.resolved
            == out.resolved,
        final(source).configured() == old(source).configured(),
{
}

/// A configured file that has not changed since it compiled stays in use as it
/// is, whatever reading it would give.
pub proof fn law_unchanged_file_stays_in_use<
    M,
    S: Fn(&str) -> Result<Timestamp, String>,
    F: Fn(&str) -> Result<String, String>,
    C: Fn(&str) -> Result<M, String>,
>(
    source: &mut ManifestSource<M>,
    stat: S,
    read: F,
    compile: C,
    embedded_source: &str,
    mtime: Timestamp,
    out: Resolution<M>,
)
    requires
        old(source).configured() is Some,
        forall|s: &str, st: Result<Timestamp, String>| #[trigger]
            stat.ensures((s,), st) && s@ == old(source).configured()->0@ ==> st == Ok::<
                Timestamp,
                String,
            >(mtime),
        old(source).good() is Some,
        old(source).good()->0.path@ == old(source).configured()->0@,
        old(source).good()->0.mtime.secs == mtime.secs,
        old(source).good()->0.mtime.nanos == mtime.nanos,
        ManifestSource::<M>::resolve::<S, F, C>.ensures(
            (source, stat, read, compile, embedded_source),
            out,
        ),
    ensures
        out.warning is None,
        out.resolved == old(source).good()->0.resolved,
        final(source).good() == old(source).good(),
{
}

/// A configured file that is gone, cannot be read or does not compile: what
/// compiled of it last stays in use, else the built-in manifest is, with a
/// warning either way.
pub proof fn law_bad_file_is_warned_of<
    M,
    S: Fn(&str) -> Result<Timestamp, String>,
    F: Fn(&str) -> Result<String, String>,
    C: Fn(&str) -> Result<M, String>,
>(
    source: &mut ManifestSource<M>,
    stat: S,
    read: F,
    compile: C,
    embedded_source: &str,
    path: Seq<char>,
    out: Resolution<M>,
)
    requires
        old(source).configured() is Some && old(source).configured()->0@ == path,
        old(source).built_in() is Some ==> old(source).built_in()->0.is_built_in(embedded_source@),
        (forall|s: &str, st: Result<Timestamp, String>| #[trigger]
            stat.ensures((s,), st) && s@ == path ==> st is Err) || ((forall|
            s: &str,
            st: Result<Timestamp, String>,
        | #[trigger]
            stat.ensures((s,), st) && s@ == path ==> st is Ok && (old(source).good() matches Some(g)
                ==> g.path@ != path || g.mtime.at() != st->Ok_0.at())) && (forall|
            s: &str,
            got: Result<String, String>,
        | #[trigger]
            read.ensures((s,), got) && s@ == path ==> got is Err)),
        ManifestSource::<M>::resolve::<S, F, C>.ensures(
            (source, stat, read, compile, embedded_source),
            out,
        ),
    ensures
        out.warning is Some,
        old(source).good() is Some && old(source).good()->0.path@ == path ==> out.resolved == old(
            source,
        ).good()->0.resolved,
        !(old(source).good() is Some && old(source).good()->0.path@ == path) ==> out.resolved.origin
            is Embedded && out.resolved.digest@ == hash::sha256_hex_of(
            vstd::utf8::encode_utf8(embedded_source@),
        ),
        final(source).good() == old(source).good(),
{
}

/// A changed file that does not compile: what compiled of it last stays in use,
/// else the built-in manifest is, with a warning either way.
pub proof fn law_uncompilable_file_is_warned_of<
    M,
    S: Fn(&str) -> Result<Timestamp, String>,
    F: Fn(&str) -> Result<String, String>,
    C: Fn(&str) -> Result<M, String>,
>(
    source: &mut ManifestSource<M>,
    stat: S,
    read: F,
    compile: C,
    embedded_source: &str,
    path: Seq<char>,
    src: Seq<char>,
    out: Resolution<M>,
)
    requires
        old(source).configured() is Some && old(source).configured()->0@ == path,
        old(source).built_in() is Some ==> old(source).built_in()->0.is_built_in(embedded_source@),
        forall|s: &str, st: Result<Timestamp, String>| #[trigger]
            stat.ensures((s,), st) && s@ == path ==> st is Ok && (old(source).good() matches Some(g)
                ==> g.path@ != path || g.mtime.at() != st->Ok_0.at()),
        forall|s: &str, got: Result<String, String>| #[trigger]
            read.ensures((s,), got) && s@ == path ==> got is Ok && got->Ok_0@ == src,
        forall|s: &str, c: Result<M, String>| #[trigger]
            compile.ensures((s,), c) && s@ == src ==> c is Err,
        ManifestSource::<M>::resolve::<S, F, C>.ensures(
            (source, stat, read, compile, embedded_source),
            out,
        ),
    ensures
        out.warning is Some,
        old(source).good() is Some && old(source).good()->0.path@ == path ==> out.resolved == old(
            source,
        ).good()->0.resolved,
        !(old(source).good() is Some && old(source).good()->0.path@ == path) ==> out.resolved.origin
            is Embedded,
        final(source).good() == old(source).good(),
{
}

/// Without a configured file the built-in manifest is in use, with the digest
/// of its text and without a warning, and no file is ever kept.
pub proof fn law_built_in_is_the_given_source<
    M,
    S: Fn(&str) -> Result<Timestamp, String>,
    F: Fn(&str) -> Result<String, String>,
    C: Fn(&str) -> Result<M, String>,
>(
    source: &mut ManifestSource<M>,
    stat: S,
    read: F,
    compile: C,
    embedded_source: &str,
    out: Resolution<M>,
)
    requires
        old(source).configured() is None,
        old(source).built_in() is None,
        ManifestSource::<M>::resolve::<S, F, C>.ensures(
            (source, stat, read, compile, embedded_source),
            out,
        ),
    ensures
        out.warning is None,
        out.resolved.origin is Embedded,
        out.resolved.digest@ == hash::sha256_hex_of(vstd::utf8::encode_utf8(embedded_source@)),
        exists|s: &str|
            s@ == embedded_source@ && #[trigger] compile.ensures(
                (s,),
                Ok::<M, String>(*out.resolved.manifest),
            ),
        final(source).good() == old(source).good(),
        final(source).built_in() == Some(out.resolved),
{
}

/// The warning tells which file is bad, in which of the three ways and why, and
/// whether what compiled last is kept.
pub proof fn law_warning_says_what_is_bad<
    M,
    S: Fn(&str) -> Result<Timestamp, String>,
    F: Fn(&str) -> Result<String, String>,
    C: Fn(&str) -> Result<M, String>,
>(
    source: &mut ManifestSource<M>,
    stat: S,
    read: F,
    compile: C,
    embedded_source: &str,
    path: &str,
    why: &str,
    bad: BadOverride,
    src: Seq<char>,
    said: String,
    out: Resolution<M>,
)
    requires
        old(source).configured() is Some && old(source).configured()->0@ == path@,
        bad is NoMetadata ==> forall|s: &str, st: Result<Timestamp, String>| #[trigger]
            stat.ensures((s,), st) && s@ == path@ ==> st is Err && st->Err_0@ == why@,
        !(bad is NoMetadata) ==> forall|s: &str, st: Result<Timestamp, String>| #[trigger]
            stat.ensures((s,), st) && s@ == path@ ==> st is Ok && (old(
                source,
            ).good() matches Some(g) ==> g.path@ != path@ || g.mtime.at() != st->Ok_0.at()),
        bad is Unreadable ==> forall|s: &str, got: Result<String, String>| #[trigger]
            read.ensures((s,), got) && s@ == path@ ==> got is Err && got->Err_0@ == why@,
        bad is Uncompilable ==> forall|s: &str, got: Result<String, String>| #[trigger]
            read.ensures((s,), got) && s@ == path@ ==> got is Ok && got->Ok_0@ == src,
        bad is Uncompilable ==> forall|s: &str, c: Result<M, String>| #[trigger]
            compile.ensures((s,), c) && s@ == src ==> c is Err && c->Err_0@ == why@,
        warning.ensures(
            (
                bad,
                path,
                why,
                old(source).good() is Some && old(source).good()->0.path@ == path@,
            ),
            said,
        ),
        ManifestSource::<M>::resolve::<S, F, C>.ensures(
            (source, stat, read, compile, embedded_source),
            out,
        ),
    ensures
        out.warning is Some && out.warning->0@ == said@,
{
}

} // verus!
