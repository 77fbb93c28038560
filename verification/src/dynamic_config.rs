//! Runtime key-value configuration: started from the environment's
//! defaults, overlaid with the values persisted by the settings page, and
//! updated in place so that clients see a changed token on their next call.
use crate::config::Settings;
use crate::settings_api::pair_views;
use crate::text::str_eq;
use vstd::prelude::*;

verus! {

/// The map that inserting the pairs in order gives (a later pair wins).
pub open spec fn pairs_map(s: Seq<(Seq<char>, Seq<char>)>) -> Map<Seq<char>, Seq<char>>
    decreases s.len(),
{
    if s.len() == 0 {
        Map::empty()
    } else {
        pairs_map(s.drop_last()).insert(s.last().0, s.last().1)
    }
}

/// No key occurs twice.
pub open spec fn keys_distinct(s: Seq<(Seq<char>, Seq<char>)>) -> bool {
    forall|i: int, j: int| 0 <= i < j < s.len() ==> #[trigger] s[i].0 != #[trigger] s[j].0
}

/// What a read of `key` gives: its value, or the empty text when unset.
pub open spec fn lookup(m: Map<Seq<char>, Seq<char>>, key: Seq<char>) -> Seq<char> {
    if m.contains_key(key) {
        m[key]
    } else {
        Seq::empty()
    }
}

/// The configuration's values.
pub struct DynamicConfig {
    entries: Vec<(String, String)>,
}

impl View for DynamicConfig {
    type V = Map<Seq<char>, Seq<char>>;

    closed spec fn view(&self) -> Map<Seq<char>, Seq<char>> {
        pairs_map(pair_views(self.entries@))
    }
}

proof fn lemma_pairs_map_keys(s: Seq<(Seq<char>, Seq<char>)>, k: Seq<char>)
    ensures
        pairs_map(s).contains_key(k) <==> exists|i: int| 0 <= i < s.len() && #[trigger] s[i].0 == k,
    decreases s.len(),
{
    if s.len() > 0 {
        let p = s.drop_last();
        lemma_pairs_map_keys(p, k);
        if pairs_map(s).contains_key(k) && s.last().0 != k {
            let i = choose|i: int| 0 <= i < p.len() && #[trigger] p[i].0 == k;
            assert(s[i].0 == k);
        }
        if exists|i: int| 0 <= i < s.len() && #[trigger] s[i].0 == k {
            let i = choose|i: int| 0 <= i < s.len() && #[trigger] s[i].0 == k;
            if i < s.len() - 1 {
                assert(p[i].0 == k);
            }
        }
    }
}

proof fn lemma_pairs_map_value(s: Seq<(Seq<char>, Seq<char>)>, i: int)
    requires
        keys_distinct(s),
        0 <= i < s.len(),
    ensures
        pairs_map(s).contains_key(s[i].0),
        pairs_map(s)[s[i].0] == s[i].1,
    decreases s.len(),
{
    if i < s.len() - 1 {
        let p = s.drop_last();
        assert(p[i] == s[i]);
        assert(keys_distinct(p));
        lemma_pairs_map_value(p, i);
        assert(s[i].0 != s[s.len() - 1].0);
    }
}

proof fn lemma_pairs_map_update(s: Seq<(Seq<char>, Seq<char>)>, i: int, v: Seq<char>)
    requires
        keys_distinct(s),
        0 <= i < s.len(),
    ensures
        pairs_map(s.update(i, (s[i].0, v))) == pairs_map(s).insert(s[i].0, v),
        keys_distinct(s.update(i, (s[i].0, v))),
    decreases s.len(),
{
    let t = s.update(i, (s[i].0, v));
    let k = s[i].0;
    if i == s.len() - 1 {
        assert(t.drop_last() =~= s.drop_last());
        assert(pairs_map(t) =~= pairs_map(s).insert(k, v));
    } else {
        let p = s.drop_last();
        assert(keys_distinct(p));
        assert(t.drop_last() =~= p.update(i, (p[i].0, v)));
        lemma_pairs_map_update(p, i, v);
        assert(s.last().0 != k);
        assert(pairs_map(t) =~= pairs_map(s).insert(k, v));
    }
}

impl DynamicConfig {
    #[verifier::type_invariant]
    spec fn distinct_keys(&self) -> bool {
        keys_distinct(pair_views(self.entries@))
    }

    /// No values.
    pub fn new() -> (r: DynamicConfig)
        ensures
            r@ == Map::<Seq<char>, Seq<char>>::empty(),
    {
        let r = DynamicConfig { entries: Vec::new() };
        assert(pair_views(r.entries@) =~= Seq::empty());
        r
    }

    /// The value of `key`, empty when it is unset.
    pub fn get(&self, key: &str) -> (r: String)
        ensures
            r@ == lookup(self@, key@),
    {
        proof {
            use_type_invariant(self);
        }
        let ghost s = pair_views(self.entries@);
        let mut i: usize = 0;
        while i < self.entries.len()
            invariant
                i <= self.entries@.len(),
                s == pair_views(self.entries@),
                keys_distinct(s),
                forall|j: int| 0 <= j < i ==> #[trigger] s[j].0 != key@,
            decreases self.entries.len() - i,
        {
            if str_eq(self.entries[i].0.as_str(), key) {
                proof {
                    lemma_pairs_map_value(s, i as int);
                }
                return self.entries[i].1.clone();
            }
            i = i + 1;
        }
        proof {
            lemma_pairs_map_keys(s, key@);
        }
        String::new()
    }

    /// Sets `key` to `value`, replacing any earlier value.
    pub fn set(&mut self, key: &str, value: &str)
        ensures
            final(self)@ == old(self)@.insert(key@, value@),
    {
        proof {
            use_type_invariant(&*self);
        }
        let ghost s = pair_views(self.entries@);
        let mut i: usize = 0;
        while i < self.entries.len()
            invariant
                s == pair_views(old(self).entries@),
                i <= self.entries@.len(),
                s == pair_views(self.entries@),
                keys_distinct(s),
                forall|j: int| 0 <= j < i ==> #[trigger] s[j].0 != key@,
            decreases self.entries.len() - i,
        {
            if str_eq(self.entries[i].0.as_str(), key) {
                let k = self.entries[i].0.clone();
                proof {
                    assert(s[i as int].0 == key@);
                    lemma_pairs_map_update(s, i as int, value@);
                }
                let mut e: Vec<(String, String)> = Vec::new();
                std::mem::swap(&mut e, &mut self.entries);
                e.set(i, (k, String::from_str(value)));
                assert(pair_views(e@) =~= s.update(i as int, (s[i as int].0, value@)));
                self.entries = e;
                return;
            }
            i = i + 1;
        }
        proof {
            lemma_pairs_map_keys(s, key@);
        }
        let mut e: Vec<(String, String)> = Vec::new();
        std::mem::swap(&mut e, &mut self.entries);
        e.push((String::from_str(key), String::from_str(value)));
        assert(pair_views(e@).drop_last() =~= s);
        assert(pair_views(e@) =~= s.push((key@, value@)));
        self.entries = e;
    }

    /// Values from `pairs`, a later pair for a key replacing an earlier one.
    pub fn from_defaults(pairs: &Vec<(String, String)>) -> (r: DynamicConfig)
        ensures
            r@ == pairs_map(pair_views(pairs@)),
    {
        let mut r = DynamicConfig::new();
        r.overlay(pairs);
        assert(Map::<Seq<char>, Seq<char>>::empty().union_prefer_right(pairs_map(pair_views(pairs@)))
            =~= pairs_map(pair_views(pairs@)));
        r
    }

    /// Sets each pair in order over the current values.
    pub fn overlay(&mut self, pairs: &Vec<(String, String)>)
        ensures
            final(self)@ == old(self)@.union_prefer_right(pairs_map(pair_views(pairs@))),
    {
        let mut i: usize = 0;
        while i < pairs.len()
            invariant
                i <= pairs@.len(),
                self@ == old(self)@.union_prefer_right(pairs_map(pair_views(pairs@.take(i as int)))),
            decreases pairs.len() - i,
        {
            let ghost before = self@;
            self.set(pairs[i].0.as_str(), pairs[i].1.as_str());
            proof {
                let p = pair_views(pairs@.take(i + 1));
                assert(p.drop_last() =~= pair_views(pairs@.take(i as int)));
                assert(self@ =~= old(self)@.union_prefer_right(pairs_map(p)));
            }
            i = i + 1;
        }
        assert(pairs@.take(pairs.len() as int) =~= pairs@);
    }

    /// Every (key, value) pair, each key once.
    pub fn get_all(&self) -> (r: Vec<(String, String)>)
        ensures
            pairs_map(pair_views(r@)) == self@,
            keys_distinct(pair_views(r@)),
    {
        proof {
            use_type_invariant(self);
        }
        let mut r: Vec<(String, String)> = Vec::new();
        let mut i: usize = 0;
        while i < self.entries.len()
            invariant
                i <= self.entries@.len(),
                r@.len() == i,
                pair_views(r@) == pair_views(self.entries@).take(i as int),
            decreases self.entries.len() - i,
        {
            let ghost r0 = r@;
            let p = (self.entries[i].0.clone(), self.entries[i].1.clone());
            r.push(p);
            proof {
                let w = pair_views(self.entries@);
                assert(r@ == r0.push(p));
                assert forall|j: int| 0 <= j <= i implies #[trigger] pair_views(r@)[j] == w.take(i + 1)[j] by {
                    if j < i {
                        assert(r@[j] == r0[j]);
                        assert(pair_views(r0)[j] == w.take(i as int)[j]);
                    }
                }
                assert(pair_views(r@) =~= w.take(i + 1));
            }
            i = i + 1;
        }
        assert(pair_views(self.entries@).take(self.entries.len() as int) =~= pair_views(self.entries@));
        r
    }
}

/// The configuration keys taken from the environment's settings, with their
/// values.
pub open spec fn defaults_spec(s: Settings) -> Seq<(Seq<char>, Seq<char>)> {
    seq![
        ("llm_base_url"@, s.llm.base_url@),
        ("llm_api_key"@, s.llm.api_key@),
        ("llm_model"@, s.llm.model@),
        ("deriv_app_id"@, s.deriv.app_id@),
        ("deriv_api_token"@, s.deriv.api_key@),
        ("deriv_account_id"@, s.deriv.account_id@),
        ("oanda_base_url"@, s.oanda.base_url@),
        ("oanda_api_token"@, s.oanda.api_key@),
        ("oanda_account_id"@, s.oanda.account_id@),
    ]
}

/// The environment's defaults for the runtime configuration.
pub fn config_defaults(s: &Settings) -> (r: Vec<(String, String)>)
    ensures
        pair_views(r@) == defaults_spec(*s),
{
    let mut r: Vec<(String, String)> = Vec::new();
    r.push((String::from_str("llm_base_url"), s.llm.base_url.clone()));
    r.push((String::from_str("llm_api_key"), s.llm.api_key.clone()));
    r.push((String::from_str("llm_model"), s.llm.model.clone()));
    r.push((String::from_str("deriv_app_id"), s.deriv.app_id.clone()));
    r.push((String::from_str("deriv_api_token"), s.deriv.api_key.clone()));
    r.push((String::from_str("deriv_account_id"), s.deriv.account_id.clone()));
    r.push((String::from_str("oanda_base_url"), s.oanda.base_url.clone()));
    r.push((String::from_str("oanda_api_token"), s.oanda.api_key.clone()));
    r.push((String::from_str("oanda_account_id"), s.oanda.account_id.clone()));
    assert(pair_views(r@) =~= defaults_spec(*s));
    r
}

} // verus!
