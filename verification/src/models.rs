//! Model selection for custom providers: the advertised model list and the
//! parsing and validation of a `provider@model` id.

use vstd::prelude::*;
use vstd::string::*;

use crate::config::{Config, ConfigProfile, ReasoningEffort};
use crate::text::{lemma_lex_total, lemma_lex_trans, lex_lt, split_once_spec, str_eq, str_lt, str_split_once};

verus! {

/// One model offered to the client.
pub struct ModelInfo {
    pub model_id: String,
    pub name: String,
    pub description: Option<String>,
}

/// The current model id together with every available model.
pub struct SessionModelState {
    pub current_model_id: String,
    pub available_models: Vec<ModelInfo>,
}

/// The `provider@model` id of the configuration's current selection.
pub open spec fn config_model_id(c: Config) -> Seq<char> {
    c.model_provider_id@ + "@"@ + c.model@
}

/// The current model id from the configuration, in `provider@model` form.
pub fn current_model_id_from_config(config: &Config) -> (r: String)
    ensures
        r@ == config_model_id(*config),
{
    config.model_provider_id.clone().concat("@").concat(config.model.as_str())
}

/// Whether a profile names this provider/model pair.
pub open spec fn profile_matches(p: ConfigProfile, pid: Seq<char>, m: Seq<char>) -> bool {
    &&& p.model matches Some(mm) && mm@ == m
    &&& p.model_provider matches Some(pp) && pp@ == pid
}

/// Whether a profile contributes a model to the advertised list: it names a
/// model and a provider, the provider is custom, and the provider is
/// configured.
pub open spec fn profile_qualifies(p: ConfigProfile, c: Config) -> bool {
    &&& p.model is Some
    &&& p.model_provider matches Some(pp) && pp@ != "openai"@ && c.has_provider(pp@)
}

/// Whether a model entry is correctly derived from this provider/model
/// pair: the id is `provider@model`, the display name uses the provider's
/// configured name, and the description spells both out.
#[verifier::opaque]
pub open spec fn info_from_pair(c: Config, mi: ModelInfo, pid: Seq<char>, m: Seq<char>) -> bool {
    &&& c.has_provider(pid)
    &&& mi.model_id@ == pid + "@"@ + m
    &&& mi.name@ == c.provider_name_spec(pid) + "@"@ + m
    &&& mi.description matches Some(d) && d@ == "Provider: "@ + c.provider_name_spec(pid)
        + ", Model: "@ + m
}

/// Whether a model entry has a legitimate source: the configuration's own
/// selection (for a custom provider) or some qualifying profile.
#[verifier::opaque]
pub open spec fn info_valid(c: Config, profiles: Seq<(String, ConfigProfile)>, mi: ModelInfo) -> bool {
    ||| (c.model_provider_id@ != "openai"@ && info_from_pair(
        c,
        mi,
        c.model_provider_id@,
        c.model@,
    ))
    ||| (exists|i: int|
        0 <= i < profiles.len() && {
            let p = (#[trigger] profiles[i]).1;
            &&& profile_qualifies(p, c)
            &&& info_from_pair(c, mi, p.model_provider->Some_0@, p.model->Some_0@)
        })
}

/// What the advertised model list guarantees: unique ids; every entry
/// derived from the configuration's own selection or a qualifying profile;
/// the configuration's selection first when its provider is custom and
/// configured; and an entry for every qualifying profile.
pub open spec fn models_list_ok(
    c: Config,
    profiles: Seq<(String, ConfigProfile)>,
    r: Seq<ModelInfo>,
) -> bool {
    &&& forall|i: int, j: int|
        0 <= i < j < r.len() ==> (#[trigger] r[i]).model_id@ != (#[trigger] r[j]).model_id@
    &&& forall|k: int| 0 <= k < r.len() ==> info_valid(c, profiles, #[trigger] r[k])
    &&& (c.model_provider_id@ != "openai"@ && c.has_provider(c.model_provider_id@) ==> r.len() > 0
        && r[0].model_id@ == config_model_id(c))
    &&& forall|i: int|
        0 <= i < profiles.len() && profile_qualifies((#[trigger] profiles[i]).1, c) ==> exists|
            k: int,
        |
            0 <= k < r.len() && (#[trigger] r[k]).model_id@ == profiles[i].1.model_provider->Some_0@
                + "@"@ + profiles[i].1.model->Some_0@
    &&& tail_pairs_sorted(
        r,
        if c.model_provider_id@ != "openai"@ && c.has_provider(c.model_provider_id@) {
            1int
        } else {
            0int
        },
    )
}

/// Build the entry advertised for one provider/model pair, when the
/// provider is configured.
pub fn build_model_info(config: &Config, provider_id: &str, model_name: &str) -> (r: Option<
    ModelInfo,
>)
    requires
        config.wf(),
    ensures
        match r {
            Some(mi) => info_from_pair(*config, mi, provider_id@, model_name@),
            None => !config.has_provider(provider_id@),
        },
{
    proof {
        reveal(info_from_pair);
    }
    match config.find_provider(provider_id) {
        Some(provider) => {
            let model_id = String::from_str(provider_id).concat("@").concat(model_name);
            let name = provider.name.clone().concat("@").concat(model_name);
            let description = String::from_str("Provider: ").concat(provider.name.as_str()).concat(
                ", Model: ",
            ).concat(model_name);
            Some(ModelInfo { model_id, name, description: Some(description) })
        },
        None => None,
    }
}

/// A profile-derived candidate, before sorting and deduplication.
struct Candidate {
    provider: String,
    model: String,
    effort: Option<ReasoningEffort>,
}

/// The `provider@model` id of a candidate.
spec fn cand_id(c: Candidate) -> Seq<char> {
    c.provider@ + "@"@ + c.model@
}

/// Two candidates with the same provider/model pair.
spec fn same_pair(a: Candidate, b: Candidate) -> bool {
    a.provider@ == b.provider@ && a.model@ == b.model@
}

/// Some element of `s` carries this candidate's pair.
spec fn pair_in(s: Seq<Candidate>, c: Candidate) -> bool {
    exists|k: int| 0 <= k < s.len() && same_pair(#[trigger] s[k], c)
}

/// Provider-then-model order on keys: strictly before, or the same pair.
pub open spec fn pair_le(p1: Seq<char>, m1: Seq<char>, p2: Seq<char>, m2: Seq<char>) -> bool {
    lex_lt(p1, p2) || (p1 == p2 && (lex_lt(m1, m2) || m1 == m2))
}

/// Strict provider-then-model order on candidate keys.
spec fn cand_lt(a: Candidate, b: Candidate) -> bool {
    lex_lt(a.provider@, b.provider@) || (a.provider@ == b.provider@ && lex_lt(a.model@, b.model@))
}

/// Provider-then-model order on candidate keys.
spec fn cand_le(a: Candidate, b: Candidate) -> bool {
    pair_le(a.provider@, a.model@, b.provider@, b.model@)
}

/// Candidate keys are totally ordered.
proof fn lemma_cand_total(a: Candidate, b: Candidate)
    ensures
        cand_lt(a, b) || cand_le(b, a),
{
    lemma_lex_total(a.provider@, b.provider@);
    lemma_lex_total(a.model@, b.model@);
}

/// The key order is transitive.
proof fn lemma_cand_le_trans(a: Candidate, b: Candidate, c: Candidate)
    requires
        cand_le(a, b),
        cand_le(b, c),
    ensures
        cand_le(a, c),
{
    if a.provider@ == b.provider@ && b.provider@ == c.provider@ {
        if lex_lt(a.model@, b.model@) && lex_lt(b.model@, c.model@) {
            lemma_lex_trans(a.model@, b.model@, c.model@);
        }
    } else if lex_lt(a.provider@, b.provider@) && lex_lt(b.provider@, c.provider@) {
        lemma_lex_trans(a.provider@, b.provider@, c.provider@);
    }
}

/// The tail of the list, from `lo` on, is generated by a provider-then-model
/// sorted sequence of pairs: each entry's id is its pair's `provider@model`.
pub open spec fn tail_pairs_sorted(r: Seq<ModelInfo>, lo: int) -> bool {
    exists|ks: Seq<(Seq<char>, Seq<char>)>|
        #![trigger ks.len()]
        {
            &&& ks.len() == r.len() - lo
            &&& (forall|k: int|
                0 <= k < ks.len() ==> (#[trigger] r[lo + k]).model_id@ == ks[k].0 + "@"@
                    + ks[k].1)
            &&& (forall|k1: int, k2: int|
                0 <= k1 < k2 < ks.len() ==> pair_le(
                    (#[trigger] ks[k1]).0,
                    ks[k1].1,
                    (#[trigger] ks[k2]).0,
                    ks[k2].1,
                ))
        }
}

/// A candidate drawn from some qualifying profile.
#[verifier::opaque]
spec fn cand_sourced(c: Candidate, config: Config, profiles: Seq<(String, ConfigProfile)>) -> bool {
    exists|p: int|
        0 <= p < profiles.len() && profile_qualifies((#[trigger] profiles[p]).1, config)
            && profiles[p].1.model_provider->Some_0@ == c.provider@ && profiles[p].1.model->Some_0@
            == c.model@
}

/// A candidate with this profile's provider/model pair is present.
spec fn cand_covers(cands: Seq<Candidate>, p: ConfigProfile) -> bool {
    exists|k: int|
        0 <= k < cands.len() && (#[trigger] cands[k]).provider@ == p.model_provider->Some_0@
            && cands[k].model@ == p.model->Some_0@
}

/// Some entry carries this model id.
spec fn id_in(models: Seq<ModelInfo>, id: Seq<char>) -> bool {
    exists|k: int| 0 <= k < models.len() && (#[trigger] models[k]).model_id@ == id
}

/// An element of a sequence survives an insertion elsewhere.
proof fn lemma_insert_keeps<T>(s: Seq<T>, pos: int, v: T, k: int)
    requires
        0 <= pos <= s.len(),
        0 <= k < s.len(),
    ensures
        s.insert(pos, v)[if k < pos {
            k
        } else {
            k + 1
        }] == s[k],
{
}

/// The provider/model pairs of the qualifying profiles, in order.
fn collect_candidates(config: &Config, profiles: &Vec<(String, ConfigProfile)>) -> (r: Vec<
    Candidate,
>)
    requires
        config.wf(),
    ensures
        forall|k: int| 0 <= k < r@.len() ==> cand_sourced(#[trigger] r@[k], *config, profiles@),
        forall|p: int|
            0 <= p < profiles@.len() && profile_qualifies((#[trigger] profiles@[p]).1, *config)
                ==> cand_covers(r@, profiles@[p].1),
{
    let n = profiles.len();
    let mut cands: Vec<Candidate> = Vec::new();
    let mut i: usize = 0;
    while i < n
        invariant
            i <= n,
            n == profiles@.len(),
            config.wf(),
            forall|k: int|
                0 <= k < cands@.len() ==> cand_sourced(#[trigger] cands@[k], *config, profiles@),
            forall|p: int|
                0 <= p < i && profile_qualifies((#[trigger] profiles@[p]).1, *config)
                    ==> cand_covers(cands@, profiles@[p].1),
        decreases n - i,
    {
        let ghost cands_before = cands@;
        let profile = &profiles[i].1;
        match (&profile.model, &profile.model_provider) {
            (Some(model_name), Some(provider_id)) => {
                if crate::presets::is_custom_provider(provider_id.as_str())
                    && config.find_provider(provider_id.as_str()).is_some() {
                    cands.push(
                        Candidate {
                            provider: provider_id.clone(),
                            model: model_name.clone(),
                            effort: profile.model_reasoning_effort,
                        },
                    );
                    proof {
                        reveal(cand_sourced);
                        let ki = cands@.len() - 1;
                        assert(profile_qualifies(profiles@[i as int].1, *config));
                        assert(cands@[ki].provider@ == profiles@[
                            i as int
                        ].1.model_provider->Some_0@);
                        assert(cand_sourced(cands@[ki], *config, profiles@));
                        assert forall|k: int|
                            0 <= k < cands@.len() implies cand_sourced(
                            #[trigger] cands@[k],
                            *config,
                            profiles@,
                        ) by {
                            if k < ki {
                                assert(cands@[k] == cands_before[k]);
                            }
                        }
                        assert forall|p: int|
                            0 <= p < i + 1 && profile_qualifies(
                                (#[trigger] profiles@[p]).1,
                                *config,
                            ) implies cand_covers(cands@, profiles@[p].1) by {
                            if p < i {
                                let k = choose|k: int|
                                    0 <= k < cands_before.len() && (
                                    #[trigger] cands_before[k]).provider@ == profiles@[
                                        p
                                    ].1.model_provider->Some_0@ && cands_before[k].model@
                                        == profiles@[p].1.model->Some_0@;
                                assert(cands@[k] == cands_before[k]);
                            } else {
                                assert(cands@[ki].provider@ == profiles@[
                                    p
                                ].1.model_provider->Some_0@);
                            }
                        }
                    }
                } else {
                    proof {
                        assert(!profile_qualifies(profiles@[i as int].1, *config));
                    }
                }
            },
            _ => {
                proof {
                    assert(!profile_qualifies(profiles@[i as int].1, *config));
                }
            },
        }
        i = i + 1;
    }
    cands
}

/// The first position whose key is strictly after the candidate's.
fn find_insert_pos(sorted: &Vec<Candidate>, c: &Candidate) -> (r: usize)
    ensures
        r <= sorted@.len(),
        forall|k: int| 0 <= k < r ==> !cand_lt(*c, #[trigger] sorted@[k]),
        r < sorted@.len() ==> cand_lt(*c, sorted@[r as int]),
{
    let mut pos: usize = 0;
    while pos < sorted.len() && !cand_key_lt(c, &sorted[pos])
        invariant
            pos <= sorted@.len(),
            forall|k: int| 0 <= k < pos ==> !cand_lt(*c, #[trigger] sorted@[k]),
        decreases sorted@.len() - pos,
    {
        pos = pos + 1;
    }
    pos
}

/// Sort candidates by provider id, then model name, keeping equal keys in
/// their original order: the output holds exactly the input's pairs, in
/// key order.
#[verifier::rlimit(60)]
fn sort_candidates(cands: &Vec<Candidate>) -> (r: Vec<Candidate>)
    ensures
        forall|k: int| 0 <= k < r@.len() ==> pair_in(cands@, #[trigger] r@[k]),
        forall|k2: int| 0 <= k2 < cands@.len() ==> pair_in(r@, #[trigger] cands@[k2]),
        forall|k1: int, k2: int|
            0 <= k1 < k2 < r@.len() ==> cand_le(#[trigger] r@[k1], #[trigger] r@[k2]),
{
    let m = cands.len();
    let mut sorted: Vec<Candidate> = Vec::new();
    let mut t: usize = 0;
    while t < m
        invariant
            t <= m,
            m == cands@.len(),
            forall|k: int| 0 <= k < sorted@.len() ==> pair_in(cands@, #[trigger] sorted@[k]),
            forall|k2: int| 0 <= k2 < t ==> pair_in(sorted@, #[trigger] cands@[k2]),
            forall|k1: int, k2: int|
                0 <= k1 < k2 < sorted@.len() ==> cand_le(
                    #[trigger] sorted@[k1],
                    #[trigger] sorted@[k2],
                ),
        decreases m - t,
    {
        let c = &cands[t];
        let pos = find_insert_pos(&sorted, c);
        let ghost sorted_before = sorted@;
        sorted.insert(
            pos,
            Candidate { provider: c.provider.clone(), model: c.model.clone(), effort: c.effort },
        );
        proof {
            assert(same_pair(sorted@[pos as int], cands@[t as int]));
            let cnew = sorted@[pos as int];
            assert(cnew.provider@ == c.provider@ && cnew.model@ == c.model@);
            assert forall|k1: int, k2: int|
                0 <= k1 < k2 < sorted@.len() implies cand_le(
                #[trigger] sorted@[k1],
                #[trigger] sorted@[k2],
            ) by {
                if k1 == pos {
                    // The new element sits before everything it was found
                    // to be strictly less than.
                    let k2_old = k2 - 1;
                    lemma_insert_keeps(sorted_before, pos as int, cnew, k2_old);
                    assert(sorted@[k2] == sorted_before[k2_old]);
                    assert(cand_lt(*c, sorted_before[pos as int]));
                    assert(cand_lt(cnew, sorted_before[pos as int]));
                    if k2_old == pos {
                    } else {
                        assert(cand_le(sorted_before[pos as int], sorted_before[k2_old]));
                        lemma_cand_le_trans(cnew, sorted_before[pos as int], sorted_before[k2_old]);
                    }
                } else if k2 == pos {
                    // Everything before the insertion point is not after
                    // the new element, hence at or before it.
                    lemma_insert_keeps(sorted_before, pos as int, cnew, k1);
                    assert(sorted@[k1] == sorted_before[k1]);
                    assert(!cand_lt(*c, sorted_before[k1]));
                    assert(!cand_lt(cnew, sorted_before[k1]));
                    lemma_cand_total(cnew, sorted_before[k1]);
                } else {
                    let k1_old: int = if k1 < pos {
                        k1
                    } else {
                        k1 - 1
                    };
                    let k2_old: int = if k2 < pos {
                        k2
                    } else {
                        k2 - 1
                    };
                    lemma_insert_keeps(sorted_before, pos as int, cnew, k1_old);
                    lemma_insert_keeps(sorted_before, pos as int, cnew, k2_old);
                    assert(sorted@[k1] == sorted_before[k1_old]);
                    assert(sorted@[k2] == sorted_before[k2_old]);
                    assert(cand_le(sorted_before[k1_old], sorted_before[k2_old]));
                }
            }
            assert forall|k: int| 0 <= k < sorted@.len() implies pair_in(
                cands@,
                #[trigger] sorted@[k],
            ) by {
                if k != pos {
                    let k_old: int = if k < pos {
                        k
                    } else {
                        k - 1
                    };
                    lemma_insert_keeps(sorted_before, pos as int, sorted@[pos as int], k_old);
                    assert(sorted@[k] == sorted_before[k_old]);
                }
            }
            assert forall|k2: int| 0 <= k2 < t + 1 implies pair_in(
                sorted@,
                #[trigger] cands@[k2],
            ) by {
                if k2 < t {
                    let k = choose|k: int|
                        0 <= k < sorted_before.len() && same_pair(
                            #[trigger] sorted_before[k],
                            cands@[k2],
                        );
                    lemma_insert_keeps(sorted_before, pos as int, sorted@[pos as int], k);
                    let k_new: int = if k < pos {
                        k
                    } else {
                        k + 1
                    };
                    assert(sorted@[k_new] == sorted_before[k]);
                    assert(same_pair(sorted@[k_new], cands@[k2]));
                } else {
                    assert(same_pair(sorted@[pos as int], cands@[k2]));
                }
            }
        }
        t = t + 1;
    }
    sorted
}

/// Append the entries of the sorted candidates, skipping ids already
/// present, each entry built from the provider table.
#[verifier::rlimit(60)]
fn map_candidates(
    config: &Config,
    profiles: &Vec<(String, ConfigProfile)>,
    sorted: &Vec<Candidate>,
    models: &mut Vec<ModelInfo>,
    seen: &mut Vec<String>,
)
    requires
        config.wf(),
        old(seen)@.len() == old(models)@.len(),
        forall|a: int|
            0 <= a < old(seen)@.len() ==> (#[trigger] old(seen)@[a])@ == old(models)@[a].model_id@,
        forall|a: int, b: int|
            0 <= a < b < old(models)@.len() ==> (#[trigger] old(models)@[a]).model_id@ != (
            #[trigger] old(models)@[b]).model_id@,
        forall|k: int|
            0 <= k < old(models)@.len() ==> info_valid(*config, profiles@, #[trigger] old(
                models,
            )@[k]),
        forall|k: int|
            0 <= k < sorted@.len() ==> cand_sourced(#[trigger] sorted@[k], *config, profiles@),
        forall|k1: int, k2: int|
            0 <= k1 < k2 < sorted@.len() ==> cand_le(
                #[trigger] sorted@[k1],
                #[trigger] sorted@[k2],
            ),
    ensures
        final(models)@.len() >= old(models)@.len(),
        forall|k: int| 0 <= k < old(models)@.len() ==> final(models)@[k] == old(models)@[k],
        forall|a: int, b: int|
            0 <= a < b < final(models)@.len() ==> (#[trigger] final(models)@[a]).model_id@ != (
            #[trigger] final(models)@[b]).model_id@,
        forall|k: int|
            0 <= k < final(models)@.len() ==> info_valid(
                *config,
                profiles@,
                #[trigger] final(models)@[k],
            ),
        forall|k2: int|
            0 <= k2 < sorted@.len() ==> id_in(final(models)@, cand_id(#[trigger] sorted@[k2])),
        tail_pairs_sorted(final(models)@, old(models)@.len() as int),
{
    let s_len = sorted.len();
    let ghost lo = old(models)@.len() as int;
    let ghost mut ks: Seq<(Seq<char>, Seq<char>)> = Seq::empty();
    let mut u: usize = 0;
    while u < s_len
        invariant
            u <= s_len,
            s_len == sorted@.len(),
            config.wf(),
            models@.len() >= old(models)@.len(),
            forall|k: int| 0 <= k < old(models)@.len() ==> models@[k] == old(models)@[k],
            seen@.len() == models@.len(),
            forall|a: int| 0 <= a < seen@.len() ==> (#[trigger] seen@[a])@ == models@[a].model_id@,
            forall|a: int, b: int|
                0 <= a < b < models@.len() ==> (#[trigger] models@[a]).model_id@ != (
                #[trigger] models@[b]).model_id@,
            forall|k: int|
                0 <= k < models@.len() ==> info_valid(*config, profiles@, #[trigger] models@[k]),
            forall|k2: int| 0 <= k2 < u ==> id_in(models@, cand_id(#[trigger] sorted@[k2])),
            forall|k: int|
                0 <= k < sorted@.len() ==> cand_sourced(#[trigger] sorted@[k], *config, profiles@),
            forall|k1: int, k2: int|
                0 <= k1 < k2 < sorted@.len() ==> cand_le(
                    #[trigger] sorted@[k1],
                    #[trigger] sorted@[k2],
                ),
            lo == old(models)@.len(),
            ks.len() == models@.len() - lo,
            forall|k: int|
                0 <= k < ks.len() ==> (#[trigger] models@[lo + k]).model_id@ == ks[k].0 + "@"@
                    + ks[k].1,
            forall|k: int|
                0 <= k < ks.len() ==> exists|k2: int|
                    0 <= k2 < u && (#[trigger] ks[k]).0 == sorted@[k2].provider@ && ks[k].1
                        == sorted@[k2].model@,
            forall|k1: int, k2: int|
                0 <= k1 < k2 < ks.len() ==> pair_le(
                    (#[trigger] ks[k1]).0,
                    ks[k1].1,
                    (#[trigger] ks[k2]).0,
                    ks[k2].1,
                ),
        decreases s_len - u,
    {
        let ghost models_before = models@;
        let ghost seen_before = seen@;
        let c = &sorted[u];
        let model_id = c.provider.clone().concat("@").concat(c.model.as_str());
        proof {
            assert(model_id@ == cand_id(sorted@[u as int]));
        }
        if !contains_string(seen, model_id.as_str()) {
            match build_model_info(config, c.provider.as_str(), c.model.as_str()) {
                Some(mi) => {
                    proof {
                        reveal(info_from_pair);
                        reveal(info_valid);
                        reveal(cand_sourced);
                        assert(mi.model_id@ == model_id@);
                        assert(cand_sourced(sorted@[u as int], *config, profiles@));
                        assert(info_valid(*config, profiles@, mi));
                        assert forall|a: int|
                            0 <= a < models_before.len() implies (
                        #[trigger] models_before[a]).model_id@ != mi.model_id@ by {
                            assert(seen_before[a]@ == models_before[a].model_id@);
                        }
                    }
                    seen.push(model_id);
                    models.push(mi);
                    proof {
                        assert(models@[models@.len() - 1].model_id@ == cand_id(
                            sorted@[u as int],
                        ));
                        assert forall|k2: int| 0 <= k2 < u + 1 implies id_in(
                            models@,
                            cand_id(#[trigger] sorted@[k2]),
                        ) by {
                            if k2 < u {
                                let k = choose|k: int|
                                    0 <= k < models_before.len() && (
                                    #[trigger] models_before[k]).model_id@ == cand_id(
                                        sorted@[k2],
                                    );
                                assert(models@[k] == models_before[k]);
                            }
                        }
                        let ks_before = ks;
                        ks = ks.push((sorted@[u as int].provider@, sorted@[u as int].model@));
                        let kn = ks.len() - 1;
                        assert(ks[kn].0 == sorted@[u as int].provider@ && ks[kn].1 == sorted@[
                            u as int
                        ].model@);
                        assert(models@[lo + kn].model_id@ == ks[kn].0 + "@"@ + ks[kn].1);
                        assert forall|k: int|
                            0 <= k < ks.len() implies (#[trigger] models@[lo + k]).model_id@
                            == ks[k].0 + "@"@ + ks[k].1 by {
                            if k < kn {
                                assert(ks[k] == ks_before[k]);
                                assert(models@[lo + k] == models_before[lo + k]);
                            }
                        }
                        assert forall|k: int|
                            0 <= k < ks.len() implies exists|k2: int|
                            0 <= k2 < u + 1 && (#[trigger] ks[k]).0 == sorted@[k2].provider@
                                && ks[k].1 == sorted@[k2].model@ by {
                            if k < kn {
                                assert(ks[k] == ks_before[k]);
                            } else {
                                assert(ks[kn].0 == sorted@[u as int].provider@ && ks[kn].1
                                    == sorted@[u as int].model@);
                            }
                        }
                        assert forall|k1: int, k2: int|
                            0 <= k1 < k2 < ks.len() implies pair_le(
                            (#[trigger] ks[k1]).0,
                            ks[k1].1,
                            (#[trigger] ks[k2]).0,
                            ks[k2].1,
                        ) by {
                            if k2 == kn {
                                // Every earlier key came from an earlier
                                // candidate, and the candidates are sorted.
                                assert(ks[k1] == ks_before[k1]);
                                let k2s = choose|k2s: int|
                                    0 <= k2s < u && (#[trigger] ks_before[k1]).0 == sorted@[
                                        k2s
                                    ].provider@ && ks_before[k1].1 == sorted@[k2s].model@;
                                assert(cand_le(sorted@[k2s], sorted@[u as int]));
                            } else {
                                assert(ks[k1] == ks_before[k1] && ks[k2] == ks_before[k2]);
                            }
                        }
                    }
                },
                None => {
                    proof {
                        // A qualifying profile's provider is configured, so
                        // the lookup cannot fail.
                        reveal(cand_sourced);
                        assert(cand_sourced(sorted@[u as int], *config, profiles@));
                        assert(false);
                    }
                },
            }
        } else {
            proof {
                let a = choose|a: int| 0 <= a < seen@.len() && (#[trigger] seen@[a])@ == model_id@;
                assert(models@[a].model_id@ == cand_id(sorted@[u as int]));
            }
        }
        u = u + 1;
    }
    proof {
        let ks_w = ks;
        assert(ks_w.len() == models@.len() - lo);
        assert(tail_pairs_sorted(models@, lo));
    }
}

/// The advertised model list: the configuration's current selection first
/// (for a custom, configured provider), then the models of qualifying
/// profiles, sorted by provider id and model name for stable output and
/// deduplicated by model id, each entry carrying the provider's display
/// name.
#[verifier::rlimit(60)]
pub fn available_models_from_profiles(
    config: &Config,
    profiles: &Vec<(String, ConfigProfile)>,
) -> (r: Vec<ModelInfo>)
    requires
        config.wf(),
    ensures
        models_list_ok(*config, profiles@, r@),
{
    let mut models: Vec<ModelInfo> = Vec::new();
    let mut seen: Vec<String> = Vec::new();

    // The configuration's own selection comes first, for custom providers.
    if crate::presets::is_custom_provider(config.model_provider_id.as_str()) {
        match build_model_info(config, config.model_provider_id.as_str(), config.model.as_str()) {
            Some(mi) => {
                proof {
                    reveal(info_from_pair);
                    reveal(info_valid);
                    assert(info_valid(*config, profiles@, mi));
                }
                seen.push(mi.model_id.clone());
                models.push(mi);
            },
            None => {},
        }
    }
    let ghost head = models@;

    let cands = collect_candidates(config, profiles);
    let sorted = sort_candidates(&cands);
    proof {
        assert forall|k: int| 0 <= k < sorted@.len() implies cand_sourced(
            #[trigger] sorted@[k],
            *config,
            profiles@,
        ) by {
            reveal(cand_sourced);
            assert(pair_in(cands@, sorted@[k]));
            let kc = choose|kc: int|
                0 <= kc < cands@.len() && same_pair(#[trigger] cands@[kc], sorted@[k]);
            assert(cand_sourced(cands@[kc], *config, profiles@));
        }
    }
    map_candidates(config, profiles, &sorted, &mut models, &mut seen);

    proof {
        if config.model_provider_id@ != "openai"@ && config.has_provider(
            config.model_provider_id@,
        ) {
            assert(head.len() > 0 && head[0].model_id@ == config_model_id(*config)) by {
                reveal(info_from_pair);
            }
            assert(models@[0] == head[0]);
            assert(head.len() == 1);
        } else {
            assert(head.len() == 0);
        }
        assert(tail_pairs_sorted(models@, head.len() as int));
        assert(head.len() as int == (if config.model_provider_id@ != "openai"@
            && config.has_provider(config.model_provider_id@) {
            1int
        } else {
            0int
        }));
        assert(tail_pairs_sorted(
            models@,
            if config.model_provider_id@ != "openai"@ && config.has_provider(
                config.model_provider_id@,
            ) {
                1int
            } else {
                0int
            },
        ));
        assert forall|i: int|
            0 <= i < profiles@.len() && profile_qualifies((#[trigger] profiles@[i]).1, *config)
                implies exists|k: int|
            0 <= k < models@.len() && (#[trigger] models@[k]).model_id@ == profiles@[
                i
            ].1.model_provider->Some_0@ + "@"@ + profiles@[i].1.model->Some_0@ by {
            let p = profiles@[i].1;
            assert(cand_covers(cands@, p));
            let kc = choose|kc: int|
                0 <= kc < cands@.len() && (#[trigger] cands@[kc]).provider@
                    == p.model_provider->Some_0@ && cands@[kc].model@ == p.model->Some_0@;
            assert(pair_in(sorted@, cands@[kc]));
            let ks = choose|ks: int|
                0 <= ks < sorted@.len() && same_pair(#[trigger] sorted@[ks], cands@[kc]);
            assert(id_in(models@, cand_id(sorted@[ks])));
            let km = choose|km: int|
                0 <= km < models@.len() && (#[trigger] models@[km]).model_id@ == cand_id(
                    sorted@[ks],
                );
            assert(models@[km].model_id@ == p.model_provider->Some_0@ + "@"@ + p.model->Some_0@);
        }
    }
    models
}

/// Whether the strings hold this exact text.
fn contains_string(v: &Vec<String>, x: &str) -> (r: bool)
    ensures
        r == exists|a: int| 0 <= a < v@.len() && (#[trigger] v@[a])@ == x@,
{
    let n = v.len();
    let mut i: usize = 0;
    while i < n
        invariant
            i <= n,
            n == v@.len(),
            forall|a: int| 0 <= a < i ==> (#[trigger] v@[a])@ != x@,
        decreases n - i,
    {
        if str_eq(v[i].as_str(), x) {
            return true;
        }
        i = i + 1;
    }
    false
}

/// Whether one candidate's (provider, model) key is strictly before
/// another's.
fn cand_key_lt(a: &Candidate, b: &Candidate) -> (r: bool)
    ensures
        r == (lex_lt(a.provider@, b.provider@) || (a.provider@ == b.provider@ && lex_lt(
            a.model@,
            b.model@,
        ))),
{
    if str_lt(a.provider.as_str(), b.provider.as_str()) {
        true
    } else if str_eq(a.provider.as_str(), b.provider.as_str()) {
        str_lt(a.model.as_str(), b.model.as_str())
    } else {
        false
    }
}

/// Whether a model id can be resolved: it splits at its first `@`, the
/// provider part is configured, and the pair is the configuration's own
/// selection or appears in some profile.
pub open spec fn model_id_resolvable(
    c: Config,
    profiles: Seq<(String, ConfigProfile)>,
    id: Seq<char>,
) -> bool {
    match split_once_spec(id, '@') {
        Some((pid, m)) => c.has_provider(pid) && ((pid == c.model_provider_id@ && m == c.model@)
            || exists|i: int|
            0 <= i < profiles.len() && profile_matches((#[trigger] profiles[i]).1, pid, m)),
        None => false,
    }
}

/// Parse and validate a `provider@model` id against the configuration and
/// profiles: the provider must be configured, and the pair must be the
/// configuration's own selection (whose effort is then returned) or appear
/// in a profile (the first matching profile's effort is then returned).
pub fn parse_and_validate_model(
    config: &Config,
    profiles: &Vec<(String, ConfigProfile)>,
    model_id: &str,
) -> (r: Option<(String, String, Option<ReasoningEffort>)>)
    requires
        config.wf(),
    ensures
        match r {
            Some((pid, m, e)) => {
                &&& split_once_spec(model_id@, '@') == Some((pid@, m@))
                &&& config.has_provider(pid@)
                &&& (if pid@ == config.model_provider_id@ && m@ == config.model@ {
                    e == config.model_reasoning_effort
                } else {
                    exists|i: int|
                        {
                            &&& 0 <= i < profiles@.len()
                            &&& profile_matches((#[trigger] profiles@[i]).1, pid@, m@)
                            &&& profiles@[i].1.model_reasoning_effort == e
                            &&& forall|j: int|
                                0 <= j < i ==> !profile_matches(
                                    (#[trigger] profiles@[j]).1,
                                    pid@,
                                    m@,
                                )
                        }
                })
            },
            None => !model_id_resolvable(*config, profiles@, model_id@),
        },
{
    let (provider_id, model_name) = match str_split_once(model_id, '@') {
        Some(pair) => pair,
        None => {
            return None;
        },
    };
    if config.find_provider(provider_id.as_str()).is_none() {
        return None;
    }
    if str_eq(provider_id.as_str(), config.model_provider_id.as_str()) && str_eq(
        model_name.as_str(),
        config.model.as_str(),
    ) {
        return Some((provider_id, model_name, config.model_reasoning_effort));
    }
    let n = profiles.len();
    let mut i: usize = 0;
    while i < n
        invariant
            i <= n,
            n == profiles@.len(),
            split_once_spec(model_id@, '@') == Some((provider_id@, model_name@)),
            config.has_provider(provider_id@),
            !(provider_id@ == config.model_provider_id@ && model_name@ == config.model@),
            forall|j: int|
                0 <= j < i ==> !profile_matches(
                    (#[trigger] profiles@[j]).1,
                    provider_id@,
                    model_name@,
                ),
        decreases n - i,
    {
        let profile = &profiles[i].1;
        let model_hit = match &profile.model {
            Some(mm) => str_eq(mm.as_str(), model_name.as_str()),
            None => false,
        };
        let provider_hit = match &profile.model_provider {
            Some(pp) => str_eq(pp.as_str(), provider_id.as_str()),
            None => false,
        };
        if model_hit && provider_hit {
            proof {
                assert(profile_matches(profiles@[i as int].1, provider_id@, model_name@));
                assert(forall|j: int|
                    0 <= j < i ==> !profile_matches(
                        (#[trigger] profiles@[j]).1,
                        provider_id@,
                        model_name@,
                    ));
            }
            return Some((provider_id, model_name, profile.model_reasoning_effort));
        }
        i = i + 1;
    }
    None
}

} // verus!
