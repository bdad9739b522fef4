//! Liveliness key construction for discovery.
//!
//! At bridge start a liveliness token is declared under a hierarchical key
//! built from the bridge's node identity, so overlay peers can detect this
//! instance. Two fixed suffixes name the outbound and inbound attachment
//! points under the same namespace. The token itself is declared and later
//! revoked by the overlay session in the surrounding process; this module
//! fixes the keys.

use vstd::prelude::*;

verus! {

/// The discovery key for a bridge instance with the given node identity:
/// `@/<node-identity>/@mavlink`.
pub open spec fn spec_plugin_key(zid: Seq<char>) -> Seq<char> {
    "@/"@ + zid + "/@mavlink"@
}

/// The outbound publication point under the instance's namespace.
pub open spec fn spec_pub_key(zid: Seq<char>) -> Seq<char> {
    spec_plugin_key(zid) + "/v2/out"@
}

/// The inbound subscription point under the instance's namespace.
pub open spec fn spec_sub_key(zid: Seq<char>) -> Seq<char> {
    spec_plugin_key(zid) + "/v2/in"@
}

/// Whether a key is a well-formed instance discovery key, i.e. the
/// [`spec_plugin_key`] of some node identity.
pub open spec fn matches_liveliness_pattern(k: Seq<char>) -> bool {
    exists|zid: Seq<char>| k == spec_plugin_key(zid)
}

/// The key the liveliness token is declared under matches the discovery
/// pattern for every node identity.
pub proof fn lemma_liveliness_key_matches_pattern(zid: Seq<char>)
    ensures
        matches_liveliness_pattern(spec_plugin_key(zid)),
{
    assert(spec_plugin_key(zid) == spec_plugin_key(zid));
}

/// Builds the discovery key for this instance's liveliness token.
pub fn liveliness_key_plugin(zid: &str) -> (k: String)
    ensures
        k@ == spec_plugin_key(zid@),
{
    let k = "@/".to_owned();
    let k = k.concat(zid);
    let k = k.concat("/@mavlink");
    assert(k@ =~= spec_plugin_key(zid@));
    k
}

/// Builds the key of the outbound publication point.
pub fn liveliness_key_pub(zid: &str) -> (k: String)
    ensures
        k@ == spec_pub_key(zid@),
{
    let k = liveliness_key_plugin(zid);
    let k = k.concat("/v2/out");
    assert(k@ =~= spec_pub_key(zid@));
    k
}

/// Builds the key of the inbound subscription point.
pub fn liveliness_key_sub(zid: &str) -> (k: String)
    ensures
        k@ == spec_sub_key(zid@),
{
    let k = liveliness_key_plugin(zid);
    let k = k.concat("/v2/in");
    assert(k@ =~= spec_sub_key(zid@));
    k
}

} // verus!
