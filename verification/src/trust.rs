//! Trust gateway: tracks whether the bridge's self-signed certificate
//! is present in an OS trust store. Store queries go through an
//! external process, so their verdict is cached under a fixed
//! time-to-live; any install or removal invalidates the cache.
//! Platforms without managed trust stores always report trusted.

use vstd::prelude::*;
use crate::text::{contains_seq, lower_seq, trim_seq, contains_str, lower_eq, trim};

verus! {

/// How long a store verdict stays fresh, in seconds.
pub const TRUST_CACHE_TTL_SECS: u64 = 30;

/// Cached verdict of the last trust-store query.
pub struct TrustCache {
    /// The verdict of the last completed query.
    pub trusted: bool,
    /// When that query completed, as seconds since the epoch;
    /// zero after invalidation, which predates any real clock.
    pub checked_at: u64,
}

/// Whether a cache entry still answers for the clock reading `now`.
pub open spec fn cache_fresh(c: TrustCache, now: u64) -> bool {
    (if now >= c.checked_at {
        (now - c.checked_at) as u64
    } else {
        0
    }) < TRUST_CACHE_TTL_SECS
}

/// What a lookup at clock reading `now` answers: the cached verdict
/// while fresh, nothing once a new query is due.
pub open spec fn cache_answer(c: TrustCache, now: u64) -> Option<bool> {
    if cache_fresh(c, now) {
        Some(c.trusted)
    } else {
        None
    }
}

impl TrustCache {
    /// A cache that forces the first query.
    pub fn new() -> (r: TrustCache)
        ensures
            r.trusted == false,
            r.checked_at == 0,
    {
        TrustCache { trusted: false, checked_at: 0 }
    }

    /// Consults the cache at clock reading `now`.
    pub fn lookup(&self, now: u64) -> (r: Option<bool>)
        ensures
            r == cache_answer(*self, now),
    {
        let age = if now >= self.checked_at {
            now - self.checked_at
        } else {
            0
        };
        if age < TRUST_CACHE_TTL_SECS {
            Some(self.trusted)
        } else {
            None
        }
    }

    /// Records the verdict of a completed query.
    pub fn store(&mut self, now: u64, trusted: bool)
        ensures
            final(self).trusted == trusted,
            final(self).checked_at == now,
    {
        self.trusted = trusted;
        self.checked_at = now;
    }

    /// Forgets the cached verdict, so the next lookup after the
    /// time-to-live horizon queries the store again. Called after
    /// every install or removal.
    pub fn invalidate_cert_cache(&mut self)
        ensures
            final(self).checked_at == 0,
            final(self).trusted == old(self).trusted,
    {
        self.checked_at = 0;
    }
}

/// Within the time-to-live window the cache keeps answering the
/// verdict it holds, whatever happens to the underlying store: the
/// answer depends on the entry alone.
pub proof fn lemma_cache_answers_within_ttl(c: TrustCache, now1: u64, now2: u64)
    requires
        cache_fresh(c, now1),
        cache_fresh(c, now2),
    ensures
        cache_answer(c, now1) == Some(c.trusted),
        cache_answer(c, now1) == cache_answer(c, now2),
{
}

/// After invalidation, any lookup at or past the time-to-live horizon
/// returns nothing, so the caller queries the store and sees its new
/// state.
pub proof fn lemma_invalidation_forces_refresh(c: TrustCache, now: u64)
    requires
        c.checked_at == 0,
        now >= TRUST_CACHE_TTL_SECS,
    ensures
        cache_answer(c, now) is None,
{
}

/// Reads a trust-store query's standard output: the store holds a
/// matching certificate exactly when the output, trimmed and
/// lower-cased, spells `true`.
pub fn trust_result_from_stdout(stdout: &str) -> (r: bool)
    ensures
        r == (lower_seq(trim_seq(stdout@)) == "true"@),
{
    let t = trim(stdout);
    lower_eq(t.as_str(), "true")
}

/// Gate before any store installation: the certificate file must
/// already exist on disk.
pub fn install_precheck(cert_exists: bool) -> (r: Result<(), String>)
    ensures
        cert_exists <==> r is Ok,
        r matches Err(m) ==> m@ == "Certificate not found. Please restart the application."@,
{
    if cert_exists {
        Ok(())
    } else {
        Err(String::from_str("Certificate not found. Please restart the application."))
    }
}

/// Reads a per-user store installer run: it succeeded exactly when the
/// process exited cleanly and reported success on its standard output;
/// otherwise the captured diagnostic text is surfaced, standard error
/// first when it has any.
pub fn classify_install_output(status_success: bool, stdout: &str, stderr: &str) -> (r: Result<
    (),
    String,
>)
    ensures
        r is Ok <==> status_success && contains_seq(stdout@, "SUCCESS"@),
        r matches Err(m) ==> m@ == "Installation failed: "@ + (if stderr@.len() == 0 {
            stdout@
        } else {
            stderr@
        }),
{
    if status_success && contains_str(stdout, "SUCCESS") {
        Ok(())
    } else {
        let detail = if stderr.unicode_len() == 0 {
            stdout
        } else {
            stderr
        };
        Err(String::from_str("Installation failed: ").concat(detail))
    }
}

/// Reads an elevated machine-store installer run: the elevation prompt
/// reports only whether the elevated process ran to completion.
pub fn classify_machine_install(status_success: bool) -> (r: Result<(), String>)
    ensures
        r is Ok <==> status_success,
        r matches Err(m) ==> m@ == "User cancelled or installation failed"@,
{
    if status_success {
        Ok(())
    } else {
        Err(String::from_str("User cancelled or installation failed"))
    }
}

/// Reads a store-removal run: it succeeded exactly when the process
/// reported success on its standard output.
pub fn classify_remove_output(stdout: &str) -> (r: Result<(), String>)
    ensures
        r is Ok <==> contains_seq(stdout@, "SUCCESS"@),
        r matches Err(m) ==> m@ == "Failed to remove certificate: "@ + stdout@,
{
    if contains_str(stdout, "SUCCESS") {
        Ok(())
    } else {
        Err(String::from_str("Failed to remove certificate: ").concat(stdout))
    }
}

/// Completes a trust-store query: reads the verdict off the query's
/// standard output and caches it at the given clock reading.
pub fn record_trust_query(cache: &mut TrustCache, now: u64, stdout: &str) -> (r: bool)
    ensures
        r == (lower_seq(trim_seq(stdout@)) == "true"@),
        final(cache).trusted == r,
        final(cache).checked_at == now,
{
    let verdict = trust_result_from_stdout(stdout);
    cache.store(now, verdict);
    verdict
}

/// Completes a per-user store installation: reads the installer run
/// and, exactly on success, invalidates the trust cache so the next
/// check reflects the new store state.
pub fn finish_install(cache: &mut TrustCache, status_success: bool, stdout: &str, stderr: &str)
    -> (r: Result<(), String>)
    ensures
        r is Ok <==> status_success && contains_seq(stdout@, "SUCCESS"@),
        r is Ok ==> final(cache).checked_at == 0 && final(cache).trusted == old(cache).trusted,
        r is Err ==> *final(cache) == *old(cache),
        r matches Err(m) ==> m@ == "Installation failed: "@ + (if stderr@.len() == 0 {
            stdout@
        } else {
            stderr@
        }),
{
    let outcome = classify_install_output(status_success, stdout, stderr);
    if outcome.is_ok() {
        cache.invalidate_cert_cache();
    }
    outcome
}

/// Completes an elevated machine-store installation: on success the
/// trust cache is invalidated, as for the per-user store.
pub fn finish_machine_install(cache: &mut TrustCache, status_success: bool) -> (r: Result<
    (),
    String,
>)
    ensures
        r is Ok <==> status_success,
        r is Ok ==> final(cache).checked_at == 0 && final(cache).trusted == old(cache).trusted,
        r is Err ==> *final(cache) == *old(cache),
        r matches Err(m) ==> m@ == "User cancelled or installation failed"@,
{
    let outcome = classify_machine_install(status_success);
    if outcome.is_ok() {
        cache.invalidate_cert_cache();
    }
    outcome
}

/// Completes a store removal: on success the trust cache is
/// invalidated so the next check sees the purged store.
pub fn finish_remove(cache: &mut TrustCache, stdout: &str) -> (r: Result<(), String>)
    ensures
        r is Ok <==> contains_seq(stdout@, "SUCCESS"@),
        r is Ok ==> final(cache).checked_at == 0 && final(cache).trusted == old(cache).trusted,
        r is Err ==> *final(cache) == *old(cache),
        r matches Err(m) ==> m@ == "Failed to remove certificate: "@ + stdout@,
{
    let outcome = classify_remove_output(stdout);
    if outcome.is_ok() {
        cache.invalidate_cert_cache();
    }
    outcome
}

/// Settles a trust check for its consumers: a completed check stands
/// as it is, and a failed check defaults to not trusted rather than
/// propagating, since trust is advisory and gates no traffic.
pub fn trusted_or_default(check: Result<bool, String>) -> (r: bool)
    ensures
        check matches Ok(v) ==> r == v,
        check is Err ==> r == false,
{
    match check {
        Ok(v) => v,
        Err(_) => false,
    }
}

/// Trust check on platforms without a managed trust store: the
/// browser's own prompt handles acceptance, so the certificate always
/// counts as trusted.
pub fn is_cert_trusted() -> (r: Result<bool, String>)
    ensures
        r matches Ok(v) && v == true,
{
    Ok(true)
}

/// Per-user store installation on platforms without a managed trust
/// store: always refused.
pub fn install_cert_current_user() -> (r: Result<(), String>)
    ensures
        r matches Err(m) && m@ == "Certificate store installation is only available on Windows"@,
{
    Err(String::from_str("Certificate store installation is only available on Windows"))
}

/// Machine-store installation on platforms without a managed trust
/// store: always refused.
pub fn install_cert_local_machine() -> (r: Result<(), String>)
    ensures
        r matches Err(m) && m@ == "Certificate store installation is only available on Windows"@,
{
    Err(String::from_str("Certificate store installation is only available on Windows"))
}

/// Store removal on platforms without a managed trust store: always
/// refused.
pub fn remove_cert_from_store() -> (r: Result<(), String>)
    ensures
        r matches Err(m) && m@ == "Certificate store management is only available on Windows"@,
{
    Err(String::from_str("Certificate store management is only available on Windows"))
}

} // verus!
