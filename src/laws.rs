//! Properties that relate the library's functions, proved over their specs.
use vstd::prelude::*;

use crate::address::{address_text, hex_lower};
use crate::chain::{chain_name, Chain};
use crate::fetch::source_code_of;
use crate::json::{model_element, model_member, JsonModel};
use crate::payload::{
    base_name_of, bundle_plan, content_of, entries_plan, flattened_plan, is_bundle, join, sources_of,
};

verus! {

/// Only a text of at least four characters can be a bundle; in particular an
/// empty or one-character payload is always a single flattened source.
pub proof fn bundle_needs_four_chars(s: Seq<char>)
    ensures
        is_bundle(s) ==> s.len() >= 4,
        s.len() <= 1 ==> !is_bundle(s),
{
}

/// Writing a flattened payload `p` into directory `d` under the name `n`
/// gives exactly one file, `d/n.sol`, whose contents are `p`.
pub proof fn flattened_write_round_trip(
    d: Seq<char>,
    n: Seq<char>,
    p: Seq<char>,
    chain: Chain,
    address: Seq<u8>,
)
    requires
        !is_bundle(p),
    ensures
        flattened_plan(d, base_name_of(Some(n), chain, address, true), p).len() == 1,
        flattened_plan(d, base_name_of(Some(n), chain, address, true), p)[0] == (
            d + "/"@ + n + ".sol"@,
            p,
        ),
{
    assert(d + "/"@ + (n + ".sol"@) == d + "/"@ + n + ".sol"@);
}

/// Every bundle entry whose content is a string becomes the file
/// `d/n` + its relative path, holding that content; every file comes from
/// such an entry.
pub proof fn bundle_fan_out(d: Seq<char>, n: Seq<char>, es: Seq<(Seq<char>, Option<Seq<char>>)>)
    ensures
        forall|i: int|
            0 <= i < es.len() && es[i].1 is Some ==> bundle_plan(d, n, es).contains(
                (join(d, n) + es[i].0, es[i].1->Some_0),
            ),
        forall|k: int|
            #![trigger bundle_plan(d, n, es)[k]]
            0 <= k < bundle_plan(d, n, es).len() ==> exists|i: int|
                #![trigger es[i]]
                0 <= i < es.len() && es[i].1 == Some(bundle_plan(d, n, es)[k].1) && bundle_plan(
                    d,
                    n,
                    es,
                )[k].0 == join(d, n) + es[i].0,
    decreases es.len(),
{
    let prefix = join(d, n);
    if es.len() > 0 {
        let init = es.drop_last();
        bundle_fan_out(d, n, init);
        let rest = entries_plan(prefix, init);
        let all = entries_plan(prefix, es);
        assert forall|i: int| 0 <= i < es.len() && es[i].1 is Some implies all.contains(
            (prefix + es[i].0, es[i].1->Some_0),
        ) by {
            if i < es.len() - 1 {
                assert(init[i] == es[i]);
                let w = choose|w: int| 0 <= w < rest.len() && rest[w] == (
                    prefix + init[i].0,
                    init[i].1->Some_0,
                );
                assert(all[w] == rest[w]);
            } else {
                assert(all[all.len() - 1] == (prefix + es[i].0, es[i].1->Some_0));
            }
        }
        assert forall|k: int| #![trigger all[k]] 0 <= k < all.len() implies exists|i: int|
            #![trigger es[i]]
            0 <= i < es.len() && es[i].1 == Some(all[k].1) && all[k].0 == prefix + es[i].0 by {
            if k < rest.len() {
                assert(all[k] == rest[k]);
                assert(bundle_plan(d, n, init)[k] == rest[k]);
                let i = choose|i: int|
                    #![trigger init[i]]
                    0 <= i < init.len() && init[i].1 == Some(rest[k].1) && rest[k].0 == prefix
                        + init[i].0;
                assert(es[i] == init[i]);
            } else {
                assert(es[es.len() - 1].1 == Some(all[k].1));
            }
        }
    }
}

/// An entry whose content is no string adds no file.
pub proof fn bundle_skips_non_string(
    d: Seq<char>,
    n: Seq<char>,
    es: Seq<(Seq<char>, Option<Seq<char>>)>,
    path: Seq<char>,
)
    ensures
        bundle_plan(d, n, es.push((path, None))) == bundle_plan(d, n, es),
{
    assert(es.push((path, None)).drop_last() =~= es);
}

/// Without a chosen name, the base name depends on the chain and the address
/// alone: the same pair always gives the same name, made of the chain's name
/// and the address's hex text.
pub proof fn synthesized_name_is_deterministic(
    c1: Chain,
    a1: Seq<u8>,
    c2: Chain,
    a2: Seq<u8>,
    single: bool,
)
    requires
        c1 == c2,
        a1 == a2,
    ensures
        base_name_of(None, c1, a1, single) == base_name_of(None, c2, a2, single),
        base_name_of(None, c1, a1, false) == chain_name(c1) + "_"@ + "0x"@ + hex_lower(a1),
{
    assert(chain_name(c1) + "_"@ + address_text(a1) == chain_name(c1) + "_"@ + "0x"@ + hex_lower(
        a1,
    ));
}

/// Every member of a bundle's `sources` object whose `content` is a string
/// becomes the file `d/n` + its key, holding that content; every file comes
/// from such a member.
pub proof fn sources_members_become_files(
    d: Seq<char>,
    n: Seq<char>,
    v: JsonModel,
    ms: Seq<(Seq<char>, JsonModel)>,
)
    requires
        model_member(v, "sources"@) == Some(JsonModel::Object(ms)),
    ensures
        sources_of(v) is Some,
        forall|i: int|
            0 <= i < ms.len() && content_of(ms[i].1) is Some ==> bundle_plan(
                d,
                n,
                sources_of(v)->Some_0,
            ).contains((join(d, n) + ms[i].0, content_of(ms[i].1)->Some_0)),
        forall|k: int|
            #![trigger bundle_plan(d, n, sources_of(v)->Some_0)[k]]
            0 <= k < bundle_plan(d, n, sources_of(v)->Some_0).len() ==> exists|i: int|
                #![trigger ms[i]]
                0 <= i < ms.len() && content_of(ms[i].1) == Some(
                    bundle_plan(d, n, sources_of(v)->Some_0)[k].1,
                ) && bundle_plan(d, n, sources_of(v)->Some_0)[k].0 == join(d, n) + ms[i].0,
{
    let es = sources_of(v)->Some_0;
    bundle_fan_out(d, n, es);
    assert forall|i: int|
        0 <= i < ms.len() && content_of(ms[i].1) is Some implies bundle_plan(d, n, es).contains(
        (join(d, n) + ms[i].0, content_of(ms[i].1)->Some_0),
    ) by {
        assert(es[i] == (ms[i].0, content_of(ms[i].1)));
    }
    assert forall|k: int|
        #![trigger bundle_plan(d, n, es)[k]]
        0 <= k < bundle_plan(d, n, es).len() implies exists|i: int|
            #![trigger ms[i]]
            0 <= i < ms.len() && content_of(ms[i].1) == Some(bundle_plan(d, n, es)[k].1)
                && bundle_plan(d, n, es)[k].0 == join(d, n) + ms[i].0 by {
        let i = choose|i: int|
            #![trigger es[i]]
            0 <= i < es.len() && es[i].1 == Some(bundle_plan(d, n, es)[k].1) && bundle_plan(
                d,
                n,
                es,
            )[k].0 == join(d, n) + es[i].0;
        assert(es[i] == (ms[i].0, content_of(ms[i].1)));
    }
}

/// A bundle whose `sources` object is empty gives no files, and no error.
pub proof fn empty_sources_give_no_files(d: Seq<char>, n: Seq<char>, v: JsonModel)
    requires
        model_member(v, "sources"@) == Some(JsonModel::Object(Seq::empty())),
    ensures
        sources_of(v) == Some(Seq::<(Seq<char>, Option<Seq<char>>)>::empty()),
        bundle_plan(d, n, sources_of(v)->Some_0) == Seq::<(Seq<char>, Seq<char>)>::empty(),
{
    assert(sources_of(v)->Some_0 =~= Seq::<(Seq<char>, Option<Seq<char>>)>::empty());
}

/// An answer without a `result` array holding a first element, or whose first
/// element has no string `SourceCode`, yields no source text.
pub proof fn malformed_answer_has_no_source(v: JsonModel)
    ensures
        model_member(v, "result"@) is None ==> source_code_of(v) is None,
        (model_member(v, "result"@) matches Some(res) && model_element(res, 0) is None)
            ==> source_code_of(v) is None,
        (model_member(v, "result"@) matches Some(res) && model_element(res, 0) matches Some(first)
            && !(model_member(first, "SourceCode"@) matches Some(JsonModel::Str(_))))
            ==> source_code_of(v) is None,
{
}

} // verus!
