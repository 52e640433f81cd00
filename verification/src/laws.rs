//! General laws of the resolver, each stated over the spec functions that
//! the accessors' contracts use, and proved here once for all inputs.

use vstd::prelude::*;

use crate::bytes::{Bytes, MIB, TIB};
use crate::chain::{Chain, Network};
use crate::options::Options;

verus! {

/// `s` ends with `suffix`.
pub open spec fn has_suffix(s: Seq<char>, suffix: Seq<char>) -> bool {
    suffix.len() <= s.len() && s.skip(s.len() - suffix.len()) == suffix
}

/// A concatenation ends with its second operand.
proof fn lemma_concat_suffix(a: Seq<char>, b: Seq<char>)
    ensures
        has_suffix(a + b, b),
{
    assert((a + b).skip((a + b).len() - b.len()) =~= b);
}

/// Law: chain selectors that name the same network — in particular the
/// alias pairs `Main`/`Mainnet` and `Test`/`Testnet` — are indistinguishable
/// in every derived value. The overrides themselves are untouched by the
/// chain, so the override branches of each accessor agree trivially; this
/// states that the network-derived branches agree as well, whatever base
/// directory the environment supplies.
pub proof fn lemma_alias_equivalence(o: Options, c1: Chain, c2: Chain, base: Seq<char>)
    requires
        c1.network_spec() == c2.network_spec(),
    ensures
        (Options { chain: c1, ..o }).max_index_size_spec() == (Options {
            chain: c2,
            ..o
        }).max_index_size_spec(),
        (Options { chain: c1, ..o }).rpc_url_spec() == (Options { chain: c2, ..o }).rpc_url_spec(),
        (Options { chain: c1, ..o }).cookie_file_in_spec(base) == (Options {
            chain: c2,
            ..o
        }).cookie_file_in_spec(base),
        (Options { chain: c1, ..o }).data_dir_in_spec(base) == (Options {
            chain: c2,
            ..o
        }).data_dir_in_spec(base),
{
}

/// Law: with no override, the index-size limit is exactly 10 × 2^20 bytes
/// on the regression-test network and exactly 2^40 bytes on every other.
pub proof fn lemma_default_max_index_size(o: Options)
    requires
        o.max_index_size is None,
    ensures
        o.chain.network_spec() == Network::Regtest ==> o.max_index_size_spec() == Bytes(
            10485760,
        ),
        o.chain.network_spec() != Network::Regtest ==> o.max_index_size_spec() == Bytes(
            1099511627776,
        ),
{
    assert(10 * MIB == 10485760);
    assert(TIB == 1099511627776);
}

/// Law: with no override, the RPC endpoint is localhost at the active
/// network's fixed default port.
pub proof fn lemma_default_rpc_url(o: Options)
    requires
        o.rpc_url is None,
    ensures
        o.chain.network_spec() == Network::Bitcoin ==> o.rpc_url_spec() == "127.0.0.1:8332"@,
        o.chain.network_spec() == Network::Regtest ==> o.rpc_url_spec() == "127.0.0.1:18443"@,
        o.chain.network_spec() == Network::Signet ==> o.rpc_url_spec() == "127.0.0.1:38332"@,
        o.chain.network_spec() == Network::Testnet ==> o.rpc_url_spec() == "127.0.0.1:18332"@,
{
    reveal_strlit("127.0.0.1:");
    reveal_strlit("8332");
    reveal_strlit("18443");
    reveal_strlit("38332");
    reveal_strlit("18332");
    reveal_strlit("127.0.0.1:8332");
    reveal_strlit("127.0.0.1:18443");
    reveal_strlit("127.0.0.1:38332");
    reveal_strlit("127.0.0.1:18332");
    assert("127.0.0.1:"@ + "8332"@ =~= "127.0.0.1:8332"@);
    assert("127.0.0.1:"@ + "18443"@ =~= "127.0.0.1:18443"@);
    assert("127.0.0.1:"@ + "38332"@ =~= "127.0.0.1:38332"@);
    assert("127.0.0.1:"@ + "18332"@ =~= "127.0.0.1:18332"@);
}

/// Law: every default credential path ends with "/.cookie", and for a chain
/// whose network is not the primary one it ends with
/// "/<network-name>/.cookie" — whatever base directory it is resolved under.
pub proof fn lemma_cookie_file_suffix(o: Options, base: Seq<char>)
    ensures
        has_suffix(o.cookie_file_in_spec(base), "/.cookie"@),
        o.chain.network_spec() != Network::Bitcoin ==> has_suffix(
            o.cookie_file_in_spec(base),
            "/"@ + o.chain.network_spec().name_spec() + "/.cookie"@,
        ),
{
    reveal_strlit("/");
    reveal_strlit(".cookie");
    reveal_strlit("/.cookie");
    let joined = o.chain.join_network_spec(base);
    assert("/.cookie"@ =~= "/"@ + ".cookie"@);
    assert(o.cookie_file_in_spec(base) =~= joined + "/.cookie"@);
    lemma_concat_suffix(joined, "/.cookie"@);
    if o.chain.network_spec() != Network::Bitcoin {
        let tail = "/"@ + o.chain.network_spec().name_spec() + "/.cookie"@;
        assert(o.cookie_file_in_spec(base) =~= base + tail);
        lemma_concat_suffix(base, tail);
    }
}

/// Law: every default data directory ends with the fixed program-name
/// segment "/ord", and for a chain whose network is not the primary one
/// with "/ord/<network-name>" — whatever base directory it is resolved
/// under.
pub proof fn lemma_data_dir_suffix(o: Options, base: Seq<char>)
    ensures
        o.chain.network_spec() == Network::Bitcoin ==> has_suffix(
            o.data_dir_in_spec(base),
            "/ord"@,
        ),
        o.chain.network_spec() != Network::Bitcoin ==> has_suffix(
            o.data_dir_in_spec(base),
            "/ord/"@ + o.chain.network_spec().name_spec(),
        ),
{
    reveal_strlit("/");
    reveal_strlit("ord");
    reveal_strlit("/ord");
    reveal_strlit("/ord/");
    if o.chain.network_spec() == Network::Bitcoin {
        assert("/ord"@ =~= "/"@ + "ord"@);
        assert(o.data_dir_in_spec(base) =~= base + "/ord"@);
        lemma_concat_suffix(base, "/ord"@);
    } else {
        let tail = "/ord/"@ + o.chain.network_spec().name_spec();
        assert(tail =~= "/"@ + "ord"@ + "/"@ + o.chain.network_spec().name_spec());
        assert(o.data_dir_in_spec(base) =~= base + tail);
        lemma_concat_suffix(base, tail);
    }
}

/// Law: data-directory resolution is repeatable. The resolved path is a
/// pure function of the overrides, the chain and the platform base
/// directory, so two resolutions from the same state yield the same path;
/// the accessor mutates nothing, and the directory-creation side effect a
/// caller adds on top is idempotent by nature.
pub proof fn lemma_data_dir_repeatable(o1: Options, o2: Options, base1: Seq<char>, base2: Seq<char>)
    requires
        o1 == o2,
        base1 == base2,
    ensures
        o1.data_dir_in_spec(base1) == o2.data_dir_in_spec(base2),
{
}

} // verus!
