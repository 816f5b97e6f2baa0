//! The record of live stream subscriptions: for each service, the keys
//! subscribed to and the fields wanted for each key. The record is kept so
//! that a reconnected stream can ask for the same data again.

use vstd::prelude::*;
use vstd::string::*;
use crate::assoc::assoc_map;
use crate::assoc::distinct_keys;
use crate::assoc::has_key;
use crate::assoc::lemma_assoc_at;
use crate::assoc::lemma_assoc_empty;
use crate::assoc::lemma_assoc_push;
use crate::assoc::lemma_assoc_remove;
use crate::assoc::lemma_assoc_update;
use crate::text::comma_free;
use crate::text::join_with_commas;
use crate::text::join_commas;
use crate::text::lemma_split_join;
use crate::text::lemma_join_split;
use crate::text::lemma_split_shape;
use crate::text::same_text;
use crate::text::split_at_commas;
use crate::text::split_commas;
use crate::text::views;

verus! {

/// Fields wanted for each subscribed key.
pub type KeyFields = Map<Seq<char>, Seq<Seq<char>>>;

/// Subscriptions of each service.
pub type SubscriptionMap = Map<Seq<char>, KeyFields>;

/// `m` with every key of `keys` mapped to `fields`, in order.
pub open spec fn insert_keys(m: KeyFields, keys: Seq<Seq<char>>, fields: Seq<Seq<char>>) -> KeyFields
    decreases keys.len(),
{
    if keys.len() == 0 {
        m
    } else {
        insert_keys(m, keys.drop_last(), fields).insert(keys.last(), fields)
    }
}

/// `m` without any key of `keys`.
pub open spec fn remove_keys(m: KeyFields, keys: Seq<Seq<char>>) -> KeyFields
    decreases keys.len(),
{
    if keys.len() == 0 {
        m
    } else {
        remove_keys(m, keys.drop_last()).remove(keys.last())
    }
}

/// A sequence holds `k` when its front part does or its last element is `k`.
pub proof fn lemma_contains_last(keys: Seq<Seq<char>>, k: Seq<char>)
    requires
        keys.len() > 0,
    ensures
        keys.contains(k) <==> (keys.drop_last().contains(k) || k == keys.last()),
{
    if keys.contains(k) {
        let i = choose|i: int| 0 <= i < keys.len() && keys[i] == k;
        if i < keys.len() - 1 {
            assert(keys.drop_last()[i] == k);
        }
    }
    if keys.drop_last().contains(k) {
        let i = choose|i: int| 0 <= i < keys.drop_last().len() && keys.drop_last()[i] == k;
        assert(keys[i] == k);
    }
    if k == keys.last() {
        assert(keys[keys.len() - 1] == k);
    }
}

/// What inserting keys does to each key.
pub proof fn lemma_insert_keys(m: KeyFields, keys: Seq<Seq<char>>, fields: Seq<Seq<char>>, k: Seq<char>)
    ensures
        insert_keys(m, keys, fields).contains_key(k) <==> (m.contains_key(k) || keys.contains(k)),
        insert_keys(m, keys, fields).contains_key(k) ==> insert_keys(m, keys, fields)[k] == if keys.contains(k) {
            fields
        } else {
            m[k]
        },
    decreases keys.len(),
{
    if keys.len() > 0 {
        lemma_insert_keys(m, keys.drop_last(), fields, k);
        lemma_contains_last(keys, k);
    }
}

/// What removing keys does to each key.
pub proof fn lemma_remove_keys(m: KeyFields, keys: Seq<Seq<char>>, k: Seq<char>)
    ensures
        remove_keys(m, keys).contains_key(k) <==> (m.contains_key(k) && !keys.contains(k)),
        remove_keys(m, keys).contains_key(k) ==> remove_keys(m, keys)[k] == m[k],
    decreases keys.len(),
{
    if keys.len() > 0 {
        lemma_remove_keys(m, keys.drop_last(), k);
        lemma_contains_last(keys, k);
    }
}

/// The subscriptions of `service` in `subs`, none when it has no entry.
pub open spec fn service_subs(subs: SubscriptionMap, service: Seq<char>) -> KeyFields {
    if subs.contains_key(service) {
        subs[service]
    } else {
        Map::empty()
    }
}

/// The record after a request of `service` with `command` for the keys and
/// fields listed (comma separated): `ADD` adds the keys, `SUBS` replaces the
/// service's keys by them, `UNSUBS` drops them, any other command leaves the
/// keys as they were. The service has an entry afterwards in every case.
pub open spec fn apply_request(subs: SubscriptionMap, service: Seq<char>, command: Seq<char>, keys: Seq<char>, fields: Seq<char>) -> SubscriptionMap {
    let cur = service_subs(subs, service);
    let ks = split_commas(keys);
    let fs = split_commas(fields);
    let next = if command == "ADD"@ {
        insert_keys(cur, ks, fs)
    } else if command == "SUBS"@ {
        insert_keys(Map::empty(), ks, fs)
    } else if command == "UNSUBS"@ {
        remove_keys(cur, ks)
    } else {
        cur
    };
    subs.insert(service, next)
}

/// A `SUBS` request leaves its service subscribed to exactly the keys it
/// names, each with the fields it names.
pub proof fn law_subscribe_replaces(subs: SubscriptionMap, service: Seq<char>, keys: Seq<char>, fields: Seq<char>)
    ensures
        ({
            let after = apply_request(subs, service, "SUBS"@, keys, fields);
            &&& after.contains_key(service)
            &&& forall|k: Seq<char>| #[trigger] after[service].contains_key(k) <==> split_commas(keys).contains(k)
            &&& forall|k: Seq<char>| #[trigger] after[service].contains_key(k) ==> after[service][k] == split_commas(fields)
        }),
{
    reveal_strlit("SUBS");
    reveal_strlit("ADD");
    assert("SUBS"@ != "ADD"@) by {
        assert("SUBS"@[0] != "ADD"@[0]);
    }
    let after = apply_request(subs, service, "SUBS"@, keys, fields);
    assert forall|k: Seq<char>| #[trigger] after[service].contains_key(k) <==> split_commas(keys).contains(k) by {
        lemma_insert_keys(Map::empty(), split_commas(keys), split_commas(fields), k);
    }
    assert forall|k: Seq<char>| #[trigger] after[service].contains_key(k) implies after[service][k] == split_commas(fields) by {
        lemma_insert_keys(Map::empty(), split_commas(keys), split_commas(fields), k);
    }
}

/// Adding keys and then unsubscribing the same keys leaves the service with
/// the subscriptions it had, less those keys.
pub proof fn law_unsubscribe_undoes_add(subs: SubscriptionMap, service: Seq<char>, keys: Seq<char>, fields: Seq<char>, other_fields: Seq<char>)
    ensures
        apply_request(
            apply_request(subs, service, "ADD"@, keys, fields),
            service,
            "UNSUBS"@,
            keys,
            other_fields,
        )[service] == remove_keys(service_subs(subs, service), split_commas(keys)),
{
    reveal_strlit("UNSUBS");
    reveal_strlit("ADD");
    reveal_strlit("SUBS");
    assert("UNSUBS"@ != "ADD"@) by {
        assert("UNSUBS"@.len() != "ADD"@.len());
    }
    assert("UNSUBS"@ != "SUBS"@) by {
        assert("UNSUBS"@.len() != "SUBS"@.len());
    }
    let cur = service_subs(subs, service);
    let ks = split_commas(keys);
    let added = insert_keys(cur, ks, split_commas(fields));
    let mid = apply_request(subs, service, "ADD"@, keys, fields);
    assert(service_subs(mid, service) == added);
    let result = remove_keys(added, ks);
    let expected = remove_keys(cur, ks);
    assert forall|k: Seq<char>| #[trigger] result.contains_key(k) == expected.contains_key(k) by {
        lemma_remove_keys(added, ks, k);
        lemma_remove_keys(cur, ks, k);
        lemma_insert_keys(cur, ks, split_commas(fields), k);
    }
    assert forall|k: Seq<char>| #[trigger] result.contains_key(k) implies result[k] == expected[k] by {
        lemma_remove_keys(added, ks, k);
        lemma_remove_keys(cur, ks, k);
        lemma_insert_keys(cur, ks, split_commas(fields), k);
    }
    assert(result =~= expected);
}

/// Recording the same `ADD` twice has the effect of recording it once.
pub proof fn law_add_idempotent(subs: SubscriptionMap, service: Seq<char>, keys: Seq<char>, fields: Seq<char>)
    ensures
        apply_request(apply_request(subs, service, "ADD"@, keys, fields), service, "ADD"@, keys, fields)
            == apply_request(subs, service, "ADD"@, keys, fields),
{
    let cur = service_subs(subs, service);
    let ks = split_commas(keys);
    let fs = split_commas(fields);
    let once = insert_keys(cur, ks, fs);
    let mid = apply_request(subs, service, "ADD"@, keys, fields);
    assert(service_subs(mid, service) == once);
    let twice = insert_keys(once, ks, fs);
    assert forall|k: Seq<char>| #[trigger] twice.contains_key(k) == once.contains_key(k) by {
        lemma_insert_keys(once, ks, fs, k);
        lemma_insert_keys(cur, ks, fs, k);
    }
    assert forall|k: Seq<char>| #[trigger] twice.contains_key(k) implies twice[k] == once[k] by {
        lemma_insert_keys(once, ks, fs, k);
        lemma_insert_keys(cur, ks, fs, k);
    }
    assert(twice =~= once);
    assert(mid.insert(service, twice) =~= mid);
}

/// A request changes the subscriptions of its own service only.
pub proof fn law_other_services_unchanged(subs: SubscriptionMap, service: Seq<char>, command: Seq<char>, keys: Seq<char>, fields: Seq<char>, other: Seq<char>)
    requires
        other != service,
    ensures
        apply_request(subs, service, command, keys, fields).contains_key(other) == subs.contains_key(other),
        subs.contains_key(other) ==> apply_request(subs, service, command, keys, fields)[other] == subs[other],
{
}

/// A request whose command is none of `ADD`, `SUBS` and `UNSUBS` (such as
/// `VIEW`) changes no subscription, of its own service or of any other.
pub proof fn law_other_commands_keep_subscriptions(subs: SubscriptionMap, service: Seq<char>, command: Seq<char>, keys: Seq<char>, fields: Seq<char>)
    requires
        command != "ADD"@,
        command != "SUBS"@,
        command != "UNSUBS"@,
    ensures
        apply_request(subs, service, command, keys, fields).contains_key(service),
        apply_request(subs, service, command, keys, fields)[service] == service_subs(subs, service),
        forall|s: Seq<char>| s != service ==> (#[trigger] apply_request(subs, service, command, keys, fields).contains_key(s)
            == subs.contains_key(s)),
        forall|s: Seq<char>| s != service && subs.contains_key(s) ==> #[trigger] apply_request(subs, service, command, keys, fields)[s]
            == subs[s],
{
}

/// An `ADD` keeps every key its service had and adds the keys it names:
/// a named key wants the named fields, any other key keeps its fields.
pub proof fn law_add_merges(subs: SubscriptionMap, service: Seq<char>, keys: Seq<char>, fields: Seq<char>, k: Seq<char>)
    ensures
        ({
            let after = apply_request(subs, service, "ADD"@, keys, fields);
            &&& after.contains_key(service)
            &&& after[service].contains_key(k) <==> (service_subs(subs, service).contains_key(k)
                || split_commas(keys).contains(k))
            &&& split_commas(keys).contains(k) ==> after[service][k] == split_commas(fields)
            &&& (!split_commas(keys).contains(k) && service_subs(subs, service).contains_key(k))
                ==> after[service][k] == service_subs(subs, service)[k]
        }),
{
    lemma_insert_keys(service_subs(subs, service), split_commas(keys), split_commas(fields), k);
}

/// An `UNSUBS` drops exactly the keys it names from its service; every
/// other key keeps its fields.
pub proof fn law_unsubscribe_removes(subs: SubscriptionMap, service: Seq<char>, keys: Seq<char>, fields: Seq<char>, k: Seq<char>)
    ensures
        ({
            let after = apply_request(subs, service, "UNSUBS"@, keys, fields);
            &&& after.contains_key(service)
            &&& after[service].contains_key(k) <==> (service_subs(subs, service).contains_key(k)
                && !split_commas(keys).contains(k))
            &&& after[service].contains_key(k) ==> after[service][k] == service_subs(subs, service)[k]
        }),
{
    reveal_strlit("UNSUBS");
    reveal_strlit("ADD");
    reveal_strlit("SUBS");
    assert("UNSUBS"@ != "ADD"@) by {
        assert("UNSUBS"@.len() != "ADD"@.len());
    }
    assert("UNSUBS"@ != "SUBS"@) by {
        assert("UNSUBS"@.len() != "SUBS"@.len());
    }
    lemma_remove_keys(service_subs(subs, service), split_commas(keys), k);
}

/// One subscribed key and the fields wanted for it, as the request named
/// them (comma separated).
struct SubscriptionEntry {
    key: String,
    fields: String,
}

/// The subscriptions of one service.
struct ServiceEntry {
    service: String,
    entries: Vec<SubscriptionEntry>,
}

/// Keys with the fields they stand for.
spec fn entry_views(v: Seq<SubscriptionEntry>) -> Seq<(Seq<char>, Seq<Seq<char>>)> {
    v.map_values(|e: SubscriptionEntry| (e.key@, split_commas(e.fields@)))
}

/// Each service with its subscriptions.
spec fn service_views(v: Seq<ServiceEntry>) -> Seq<(Seq<char>, KeyFields)> {
    v.map_values(|s: ServiceEntry| (s.service@, assoc_map(entry_views(s.entries@))))
}

/// Entries with distinct keys, none holding a comma.
spec fn entries_wf(v: Seq<SubscriptionEntry>) -> bool {
    &&& distinct_keys(entry_views(v))
    &&& forall|i: int| 0 <= i < v.len() ==> comma_free(#[trigger] v[i].key@)
}

/// The record of subscriptions.
pub struct Subscriptions {
    services: Vec<ServiceEntry>,
}

impl View for Subscriptions {
    type V = SubscriptionMap;

    closed spec fn view(&self) -> SubscriptionMap {
        assoc_map(service_views(self.services@))
    }
}

fn find_entry(v: &Vec<SubscriptionEntry>, key: &str) -> (r: Option<usize>)
    ensures
        r matches Some(i) ==> i < v@.len() && v@[i as int].key@ == key@,
        r is None ==> !has_key(entry_views(v@), key@),
{
    let mut i: usize = 0;
    while i < v.len()
        invariant
            i <= v@.len(),
            forall|j: int| 0 <= j < i ==> v@[j].key@ != key@,
        decreases v@.len() - i,
    {
        if same_text(v[i].key.as_str(), key) {
            return Some(i);
        }
        i = i + 1;
    }
    proof {
        if has_key(entry_views(v@), key@) {
            let j = choose|j: int| 0 <= j < entry_views(v@).len() && #[trigger] entry_views(v@)[j].0 == key@;
            assert(entry_views(v@)[j].0 == v@[j].key@);
        }
    }
    None
}

fn upsert_entry(v: &mut Vec<SubscriptionEntry>, key: String, fields: &str)
    requires
        entries_wf(old(v)@),
        comma_free(key@),
    ensures
        entries_wf(final(v)@),
        assoc_map(entry_views(final(v)@)) == assoc_map(entry_views(old(v)@)).insert(
            key@,
            split_commas(fields@),
        ),
{
    let ghost before = v@;
    let ghost kv = key@;
    match find_entry(v, key.as_str()) {
        Some(i) => {
            let _old_entry = v.remove(i);
            v.insert(i, SubscriptionEntry { key, fields: fields.to_owned() });
            proof {
                assert(entry_views(v@) =~= entry_views(before).update(
                    i as int,
                    (entry_views(before)[i as int].0, split_commas(fields@)),
                ));
                lemma_assoc_update(entry_views(before), i as int, split_commas(fields@));
                assert forall|j: int| 0 <= j < v@.len() implies comma_free(#[trigger] v@[j].key@) by {
                    if j != i {
                        assert(v@[j] == before[j]);
                    }
                }
            }
        },
        None => {
            v.push(SubscriptionEntry { key, fields: fields.to_owned() });
            proof {
                assert(entry_views(v@) =~= entry_views(before).push((kv, split_commas(fields@))));
                lemma_assoc_push(entry_views(before), kv, split_commas(fields@));
                assert forall|j: int| 0 <= j < v@.len() implies comma_free(#[trigger] v@[j].key@) by {
                    if j < before.len() {
                        assert(v@[j] == before[j]);
                    }
                }
            }
        },
    }
}

fn remove_entry(v: &mut Vec<SubscriptionEntry>, key: &str)
    requires
        entries_wf(old(v)@),
    ensures
        entries_wf(final(v)@),
        assoc_map(entry_views(final(v)@)) == assoc_map(entry_views(old(v)@)).remove(key@),
{
    let ghost before = v@;
    match find_entry(v, key) {
        Some(i) => {
            let _gone = v.remove(i);
            proof {
                assert(entry_views(v@) =~= entry_views(before).remove(i as int));
                lemma_assoc_remove(entry_views(before), i as int);
                assert forall|j: int| 0 <= j < v@.len() implies comma_free(#[trigger] v@[j].key@) by {
                    if j < i {
                        assert(v@[j] == before[j]);
                    } else {
                        assert(v@[j] == before[j + 1]);
                    }
                }
            }
        },
        None => {
            proof {
                assert(assoc_map(entry_views(before)).remove(key@) =~= assoc_map(entry_views(before)));
            }
        },
    }
}

fn insert_all(v: &mut Vec<SubscriptionEntry>, keys: &Vec<String>, fields: &str)
    requires
        entries_wf(old(v)@),
        forall|i: int| 0 <= i < keys@.len() ==> comma_free(#[trigger] keys@[i]@),
    ensures
        entries_wf(final(v)@),
        assoc_map(entry_views(final(v)@)) == insert_keys(
            assoc_map(entry_views(old(v)@)),
            views(keys@),
            split_commas(fields@),
        ),
{
    let ghost start = assoc_map(entry_views(v@));
    let ghost ks = views(keys@);
    let mut i: usize = 0;
    while i < keys.len()
        invariant
            i <= keys@.len(),
            ks == views(keys@),
            ks.len() == keys@.len(),
            forall|j: int| 0 <= j < keys@.len() ==> comma_free(#[trigger] keys@[j]@),
            entries_wf(v@),
            assoc_map(entry_views(v@)) == insert_keys(start, ks.take(i as int), split_commas(fields@)),
        decreases keys@.len() - i,
    {
        proof {
            assert(ks.take(i + 1).drop_last() =~= ks.take(i as int));
            assert(ks.take(i + 1).last() == keys@[i as int]@);
        }
        upsert_entry(v, keys[i].clone(), fields);
        i = i + 1;
    }
    proof {
        assert(ks.take(keys@.len() as int) =~= ks);
    }
}

fn remove_all(v: &mut Vec<SubscriptionEntry>, keys: &Vec<String>)
    requires
        entries_wf(old(v)@),
    ensures
        entries_wf(final(v)@),
        assoc_map(entry_views(final(v)@)) == remove_keys(assoc_map(entry_views(old(v)@)), views(keys@)),
{
    let ghost start = assoc_map(entry_views(v@));
    let ghost ks = views(keys@);
    let mut i: usize = 0;
    while i < keys.len()
        invariant
            i <= keys@.len(),
            ks == views(keys@),
            ks.len() == keys@.len(),
            entries_wf(v@),
            assoc_map(entry_views(v@)) == remove_keys(start, ks.take(i as int)),
        decreases keys@.len() - i,
    {
        proof {
            assert(ks.take(i + 1).drop_last() =~= ks.take(i as int));
            assert(ks.take(i + 1).last() == keys@[i as int]@);
        }
        remove_entry(v, keys[i].as_str());
        i = i + 1;
    }
    proof {
        assert(ks.take(keys@.len() as int) =~= ks);
    }
}

/// Keys of one service that want the same fields, to be asked for again in
/// one request.
#[derive(Debug)]
pub struct ReplayGroup {
    pub service: String,
    /// The keys, comma separated.
    pub keys: String,
    /// The fields, comma separated, as they were requested.
    pub fields: String,
}

/// Some group of `gs` is for `service` and lists `key`.
pub open spec fn replay_covers(gs: Seq<ReplayGroup>, service: Seq<char>, key: Seq<char>) -> bool {
    exists|t: int| 0 <= t < gs.len() && gs[t].service@ == service && #[trigger] split_commas(gs[t].keys@).contains(key)
}

/// The group lists keys of its service that want exactly its fields, at
/// least one, each once, and every key of its service that wants them.
pub open spec fn group_ok(g: ReplayGroup, subs: SubscriptionMap) -> bool {
    &&& subs.contains_key(g.service@)
    &&& split_commas(g.keys@).len() >= 1
    &&& split_commas(g.keys@).no_duplicates()
    &&& forall|k: Seq<char>| #[trigger] split_commas(g.keys@).contains(k) ==> subs[g.service@].contains_key(k)
        && subs[g.service@][k] == split_commas(g.fields@)
    &&& forall|k: Seq<char>| #[trigger] subs[g.service@].contains_key(k) && subs[g.service@][k]
        == split_commas(g.fields@) ==> split_commas(g.keys@).contains(k)
}

/// The groups of `gs` ask for the subscriptions `subs` again, key by key:
/// each group is sound (`group_ok`), every subscribed key is listed by a
/// group of its service, and no two groups of a service want the same fields.
pub open spec fn replays(gs: Seq<ReplayGroup>, subs: SubscriptionMap) -> bool {
    &&& forall|t: int| 0 <= t < gs.len() ==> group_ok(#[trigger] gs[t], subs)
    &&& forall|s: Seq<char>, k: Seq<char>| #[trigger] subs.contains_key(s) && #[trigger] subs[s].contains_key(k) ==> replay_covers(gs, s, k)
    &&& forall|t: int, u: int| 0 <= t < gs.len() && 0 <= u < gs.len() && t != u && #[trigger] gs[t].service@ == #[trigger] gs[u].service@ ==> gs[t].fields@ != gs[u].fields@
}

/// A group added at the end keeps every earlier group's coverage.
pub proof fn lemma_covers_push(gs: Seq<ReplayGroup>, g: ReplayGroup, s: Seq<char>, k: Seq<char>)
    requires
        replay_covers(gs, s, k),
    ensures
        replay_covers(gs.push(g), s, k),
{
    let t = choose|t: int| 0 <= t < gs.len() && gs[t].service@ == s && #[trigger] split_commas(gs[t].keys@).contains(k);
    assert(gs.push(g)[t] == gs[t]);
}

/// Some entry before `i` has fields `f`.
spec fn fields_seen(e: Seq<SubscriptionEntry>, i: int, f: Seq<char>) -> bool {
    exists|j: int| #![trigger e[j]] 0 <= j < i && e[j].fields@ == f
}

/// Some entry before `i` has key `k` and fields `f`.
spec fn key_seen(e: Seq<SubscriptionEntry>, i: int, k: Seq<char>, f: Seq<char>) -> bool {
    exists|j: int| #![trigger e[j]] 0 <= j < i && e[j].key@ == k && e[j].fields@ == f
}

/// Some string of `v` is `t`.
spec fn listed(v: Seq<String>, t: Seq<char>) -> bool {
    exists|x: int| #![trigger v[x]] 0 <= x < v.len() && v[x]@ == t
}

fn index_of_text(v: &Vec<String>, t: &str) -> (r: Option<usize>)
    ensures
        r matches Some(i) ==> i < v@.len() && v@[i as int]@ == t@,
        r is None ==> !listed(v@, t@),
{
    let mut i: usize = 0;
    while i < v.len()
        invariant
            i <= v@.len(),
            forall|y: int| 0 <= y < i ==> v@[y]@ != t@,
        decreases v@.len() - i,
    {
        if same_text(v[i].as_str(), t) {
            return Some(i);
        }
        i = i + 1;
    }
    None
}

fn distinct_fields(e: &Vec<SubscriptionEntry>) -> (fs: Vec<String>)
    ensures
        forall|x: int| 0 <= x < fs@.len() ==> fields_seen(e@, e@.len() as int, #[trigger] fs@[x]@),
        forall|j: int| 0 <= j < e@.len() ==> listed(fs@, (#[trigger] e@[j]).fields@),
        forall|x: int, y: int| 0 <= x < fs@.len() && 0 <= y < fs@.len() && x != y ==> #[trigger] fs@[x]@ != #[trigger] fs@[y]@,
{
    let mut fs: Vec<String> = Vec::new();
    let mut i: usize = 0;
    while i < e.len()
        invariant
            i <= e@.len(),
            forall|x: int| 0 <= x < fs@.len() ==> fields_seen(e@, i as int, #[trigger] fs@[x]@),
            forall|j: int| 0 <= j < i ==> listed(fs@, (#[trigger] e@[j]).fields@),
            forall|x: int, y: int| 0 <= x < fs@.len() && 0 <= y < fs@.len() && x != y ==> #[trigger] fs@[x]@ != #[trigger] fs@[y]@,
        decreases e@.len() - i,
    {
        let ghost before = fs@;
        proof {
            assert forall|x: int| 0 <= x < before.len() implies fields_seen(e@, i + 1, #[trigger] before[x]@) by {
                assert(fields_seen(e@, i as int, before[x]@));
                let j = choose|j: int| #![trigger e@[j]] 0 <= j < i && e@[j].fields@ == before[x]@;
                assert(e@[j].fields@ == before[x]@);
            }
        }
        match index_of_text(&fs, e[i].fields.as_str()) {
            Some(x) => {
                proof {
                    assert(fs@[x as int]@ == e@[i as int].fields@);
                }
            },
            None => {
                fs.push(e[i].fields.clone());
                proof {
                    let n = before.len() as int;
                    assert(fs@[n]@ == e@[i as int].fields@);
                    assert(fields_seen(e@, i + 1, fs@[n]@)) by {
                        assert(e@[i as int].fields@ == fs@[n]@);
                    }
                    assert forall|j: int| 0 <= j < i + 1 implies listed(fs@, (#[trigger] e@[j]).fields@) by {
                        if j < i {
                            assert(listed(before, e@[j].fields@));
                            let x = choose|x: int| #![trigger before[x]] 0 <= x < before.len() && before[x]@ == e@[j].fields@;
                            assert(fs@[x] == before[x]);
                        } else {
                            assert(fs@[n]@ == e@[j].fields@);
                        }
                    }
                    assert forall|x: int| 0 <= x < fs@.len() implies fields_seen(e@, i + 1, #[trigger] fs@[x]@) by {
                        if x < n {
                            assert(fs@[x] == before[x]);
                        }
                    }
                    assert forall|x: int, y: int| 0 <= x < fs@.len() && 0 <= y < fs@.len() && x != y implies #[trigger] fs@[x]@ != #[trigger] fs@[y]@ by {
                        if x < n && y < n {
                            assert(fs@[x] == before[x]);
                            assert(fs@[y] == before[y]);
                        } else if x < n {
                            assert(fs@[x] == before[x]);
                        } else {
                            assert(fs@[y] == before[y]);
                        }
                    }
                }
            },
        }
        proof {
            assert(listed(fs@, e@[i as int].fields@));
        }
        i = i + 1;
    }
    fs
}

fn keys_with_fields(e: &Vec<SubscriptionEntry>, f: &String) -> (ks: Vec<String>)
    requires
        entries_wf(e@),
    ensures
        forall|x: int| 0 <= x < ks@.len() ==> key_seen(e@, e@.len() as int, #[trigger] ks@[x]@, f@),
        forall|j: int| 0 <= j < e@.len() && (#[trigger] e@[j]).fields@ == f@ ==> views(ks@).contains(e@[j].key@),
        views(ks@).no_duplicates(),
{
    let mut ks: Vec<String> = Vec::new();
    let mut i: usize = 0;
    while i < e.len()
        invariant
            i <= e@.len(),
            forall|x: int| 0 <= x < ks@.len() ==> key_seen(e@, i as int, #[trigger] ks@[x]@, f@),
            forall|j: int| 0 <= j < i && (#[trigger] e@[j]).fields@ == f@ ==> views(ks@).contains(e@[j].key@),
            entries_wf(e@),
            forall|x: int, y: int| 0 <= x < ks@.len() && 0 <= y < ks@.len() && x != y ==> #[trigger] ks@[x]@ != #[trigger] ks@[y]@,
        decreases e@.len() - i,
    {
        let ghost before = ks@;
        proof {
            assert forall|x: int| 0 <= x < before.len() implies key_seen(e@, i + 1, #[trigger] before[x]@, f@) by {
                assert(key_seen(e@, i as int, before[x]@, f@));
                let j = choose|j: int| #![trigger e@[j]] 0 <= j < i && e@[j].key@ == before[x]@ && e@[j].fields@ == f@;
                assert(e@[j].key@ == before[x]@);
            }
        }
        if same_text(e[i].fields.as_str(), f.as_str()) {
            ks.push(e[i].key.clone());
            proof {
                let n = before.len() as int;
                assert forall|x: int| 0 <= x < ks@.len() implies key_seen(e@, i + 1, #[trigger] ks@[x]@, f@) by {
                    if x < n {
                        assert(ks@[x] == before[x]);
                    } else {
                        assert(e@[i as int].key@ == ks@[x]@);
                    }
                }
                assert forall|j: int| 0 <= j < i + 1 && (#[trigger] e@[j]).fields@ == f@ implies views(ks@).contains(e@[j].key@) by {
                    if j < i {
                        assert(views(before).contains(e@[j].key@));
                        let y = choose|y: int| 0 <= y < views(before).len() && views(before)[y] == e@[j].key@;
                        assert(views(ks@)[y] == views(before)[y]);
                    } else {
                        assert(views(ks@)[n] == e@[j].key@);
                    }
                }
                assert forall|x: int| 0 <= x < n implies #[trigger] before[x]@ != e@[i as int].key@ by {
                    assert(key_seen(e@, i as int, before[x]@, f@));
                    let j = choose|j: int| #![trigger e@[j]] 0 <= j < i && e@[j].key@ == before[x]@ && e@[j].fields@ == f@;
                    let ev = entry_views(e@);
                    assert(ev[j].0 == e@[j].key@);
                    assert(ev[i as int].0 == e@[i as int].key@);
                }
                assert forall|x: int, y: int| 0 <= x < ks@.len() && 0 <= y < ks@.len() && x != y implies #[trigger] ks@[x]@ != #[trigger] ks@[y]@ by {
                    if x < n && y < n {
                        assert(ks@[x] == before[x]);
                        assert(ks@[y] == before[y]);
                    } else if x < n {
                        assert(ks@[x] == before[x]);
                        assert(before[x]@ != e@[i as int].key@);
                    } else {
                        assert(ks@[y] == before[y]);
                        assert(before[y]@ != e@[i as int].key@);
                    }
                }
            }
        }
        i = i + 1;
    }
    proof {
        assert forall|x: int, y: int| 0 <= x < views(ks@).len() && 0 <= y < views(ks@).len() && x != y implies views(ks@)[x] != views(ks@)[y] by {
            assert(views(ks@)[x] == ks@[x]@);
            assert(views(ks@)[y] == ks@[y]@);
        }
    }
    ks
}

impl Subscriptions {
    /// Services with distinct names, each with well-formed entries.
    pub closed spec fn wf(&self) -> bool {
        &&& distinct_keys(service_views(self.services@))
        &&& forall|i: int| 0 <= i < self.services@.len() ==> entries_wf(#[trigger] self.services@[i].entries@)
    }

    /// No subscriptions.
    pub fn new() -> (s: Subscriptions)
        ensures
            s.wf(),
            s@ == SubscriptionMap::empty(),
    {
        let s = Subscriptions { services: Vec::new() };
        proof {
            lemma_assoc_empty(service_views(s.services@));
        }
        s
    }

    fn find_service(&self, service: &str) -> (r: Option<usize>)
        ensures
            r matches Some(i) ==> i < self.services@.len() && self.services@[i as int].service@ == service@,
            r is None ==> !has_key(service_views(self.services@), service@),
    {
        let mut i: usize = 0;
        while i < self.services.len()
            invariant
                i <= self.services@.len(),
                forall|j: int| 0 <= j < i ==> self.services@[j].service@ != service@,
            decreases self.services@.len() - i,
        {
            if same_text(self.services[i].service.as_str(), service) {
                return Some(i);
            }
            i = i + 1;
        }
        proof {
            let sv = service_views(self.services@);
            if has_key(sv, service@) {
                let j = choose|j: int| 0 <= j < sv.len() && #[trigger] sv[j].0 == service@;
                assert(sv[j].0 == self.services@[j].service@);
            }
        }
        None
    }

    /// Drops every subscription.
    pub fn clear(&mut self)
        ensures
            final(self).wf(),
            final(self)@ == SubscriptionMap::empty(),
    {
        self.services = Vec::new();
        proof {
            lemma_assoc_empty(service_views(self.services@));
        }
    }

    /// Records a request of `service` with `command` for the keys and fields
    /// listed, as `apply_request` says.
    pub fn record(&mut self, service: &String, command: &str, keys: &str, fields: &str)
        requires
            old(self).wf(),
        ensures
            final(self).wf(),
            final(self)@ == apply_request(old(self)@, service@, command@, keys@, fields@),
    {
        let ghost old_view = self@;
        let key_list = split_at_commas(keys);
        proof {
            lemma_split_shape(keys@);
            assert forall|i: int| 0 <= i < key_list@.len() implies comma_free(#[trigger] key_list@[i]@) by {
                assert(views(key_list@)[i] == key_list@[i]@);
            }
        }
        let idx = match self.find_service(service.as_str()) {
            Some(i) => {
                proof {
                    lemma_assoc_at(service_views(self.services@), i as int);
                }
                i
            },
            None => {
                let ghost before = self.services@;
                let entry = ServiceEntry { service: service.clone(), entries: Vec::new() };
                self.services.push(entry);
                proof {
                    lemma_assoc_empty(entry_views(entry.entries@));
                    assert(service_views(self.services@) =~= service_views(before).push(
                        (service@, KeyFields::empty()),
                    ));
                    lemma_assoc_push(service_views(before), service@, KeyFields::empty());
                    assert(distinct_keys(entry_views(entry.entries@)));
                    assert forall|i: int| 0 <= i < self.services@.len() implies entries_wf(#[trigger] self.services@[i].entries@) by {
                        if i < before.len() {
                            assert(self.services@[i] == before[i]);
                        }
                    }
                    lemma_assoc_at(service_views(self.services@), before.len() as int);
                }
                self.services.len() - 1
            },
        };
        let ghost mid = self.services@;
        let ghost cur = service_subs(old_view, service@);
        assert(assoc_map(entry_views(mid[idx as int].entries@)) == cur);
        let mut se = self.services.remove(idx);
        assert(entries_wf(se.entries@));
        if same_text(command, "ADD") {
            insert_all(&mut se.entries, &key_list, fields);
        } else if same_text(command, "SUBS") {
            se.entries = Vec::new();
            proof {
                lemma_assoc_empty(entry_views(se.entries@));
            }
            insert_all(&mut se.entries, &key_list, fields);
        } else if same_text(command, "UNSUBS") {
            remove_all(&mut se.entries, &key_list);
        }
        let ghost next = assoc_map(entry_views(se.entries@));
        self.services.insert(idx, se);
        proof {
            assert(service_views(self.services@) =~= service_views(mid).update(
                idx as int,
                (service_views(mid)[idx as int].0, next),
            ));
            lemma_assoc_update(service_views(mid), idx as int, next);
            assert forall|i: int| 0 <= i < self.services@.len() implies entries_wf(#[trigger] self.services@[i].entries@) by {
                if i != idx {
                    assert(self.services@[i] == mid[i]);
                }
            }
            assert(self@ =~= apply_request(old_view, service@, command@, keys@, fields@));
        }
    }

    /// Groups the subscriptions for asking again after a reconnection: one
    /// group per service and distinct field list, in the order the services
    /// and field lists were first recorded.
    pub fn replay_groups(&self) -> (gs: Vec<ReplayGroup>)
        requires
            self.wf(),
        ensures
            replays(gs@, self@),
    {
        let mut gs: Vec<ReplayGroup> = Vec::new();
        let mut i: usize = 0;
        let ghost mut origin: Seq<int> = Seq::empty();
        let ghost sv = service_views(self.services@);
        while i < self.services.len()
            invariant
                self.wf(),
                sv == service_views(self.services@),
                i <= self.services@.len(),
                forall|t: int| 0 <= t < gs@.len() ==> group_ok(#[trigger] gs@[t], self@),
                origin.len() == gs@.len(),
                forall|t: int| 0 <= t < gs@.len() ==> 0 <= #[trigger] origin[t] < i && gs@[t].service@ == self.services@[origin[t]].service@,
                forall|idx: int, k: Seq<char>| 0 <= idx < i && #[trigger] assoc_map(entry_views(self.services@[idx].entries@)).contains_key(k) ==> replay_covers(gs@, self.services@[idx].service@, k),
                forall|t: int, u: int| 0 <= t < gs@.len() && 0 <= u < gs@.len() && t != u && #[trigger] gs@[t].service@ == #[trigger] gs@[u].service@ ==> gs@[t].fields@ != gs@[u].fields@,
            decreases self.services@.len() - i,
        {
            let se = &self.services[i];
            let ghost svc = se.service@;
            let ghost m = assoc_map(entry_views(se.entries@));
            proof {
                lemma_assoc_at(sv, i as int);
                assert(sv[i as int] == (svc, m));
                assert(self@.contains_key(svc) && self@[svc] == m);
                assert(entries_wf(se.entries@));
            }
            let fs = distinct_fields(&se.entries);
            let ghost base = gs@.len() as int;
            let mut x: usize = 0;
            while x < fs.len()
                invariant
                    self.wf(),
                    sv == service_views(self.services@),
                    i < self.services@.len(),
                    se == self.services@[i as int],
                    svc == se.service@,
                    m == assoc_map(entry_views(se.entries@)),
                    self@.contains_key(svc) && self@[svc] == m,
                    entries_wf(se.entries@),
                    x <= fs@.len(),
                    0 <= base <= gs@.len(),
                    gs@.len() == base + x,
                    forall|x1: int| 0 <= x1 < fs@.len() ==> fields_seen(se.entries@, se.entries@.len() as int, #[trigger] fs@[x1]@),
                    forall|j: int| 0 <= j < se.entries@.len() ==> listed(fs@, (#[trigger] se.entries@[j]).fields@),
                    forall|x1: int, y1: int| 0 <= x1 < fs@.len() && 0 <= y1 < fs@.len() && x1 != y1 ==> #[trigger] fs@[x1]@ != #[trigger] fs@[y1]@,
                    forall|t: int| 0 <= t < gs@.len() ==> group_ok(#[trigger] gs@[t], self@),
                    origin.len() == gs@.len(),
                    forall|t: int| 0 <= t < base ==> 0 <= #[trigger] origin[t] < i && gs@[t].service@ == self.services@[origin[t]].service@,
                    forall|t: int| base <= t < gs@.len() ==> #[trigger] origin[t] == i,
                    forall|t: int| #![trigger gs@[t]] base <= t < gs@.len() ==> gs@[t].service@ == svc && gs@[t].fields@ == fs@[t - base]@,
                    forall|idx: int, k: Seq<char>| 0 <= idx < i && #[trigger] assoc_map(entry_views(self.services@[idx].entries@)).contains_key(k) ==> replay_covers(gs@, self.services@[idx].service@, k),
                    forall|j: int, x1: int| 0 <= j < se.entries@.len() && 0 <= x1 < x && #[trigger] se.entries@[j].fields@ == #[trigger] fs@[x1]@ ==> replay_covers(gs@, svc, se.entries@[j].key@),
                    forall|t: int, u: int| 0 <= t < gs@.len() && 0 <= u < gs@.len() && t != u && #[trigger] gs@[t].service@ == #[trigger] gs@[u].service@ ==> gs@[t].fields@ != gs@[u].fields@,
                decreases fs@.len() - x,
            {
                let ks = keys_with_fields(&se.entries, &fs[x]);
                let keys = join_with_commas(ks.as_slice());
                let g = ReplayGroup { service: se.service.clone(), keys, fields: fs[x].clone() };
                let ghost before = gs@;
                proof {
                    let e = se.entries@;
                    let f = fs@[x as int]@;
                    assert(fields_seen(e, e.len() as int, f));
                    let j0 = choose|j: int| #![trigger e[j]] 0 <= j < e.len() as int && e[j].fields@ == f;
                    assert(views(ks@).contains(e[j0].key@));
                    assert forall|y: int| 0 <= y < views(ks@).len() implies comma_free(#[trigger] views(ks@)[y]) by {
                        assert(views(ks@)[y] == ks@[y]@);
                        assert(key_seen(e, e.len() as int, ks@[y]@, f));
                        let j = choose|j: int| #![trigger e[j]] 0 <= j < e.len() && e[j].key@ == ks@[y]@ && e[j].fields@ == f;
                        assert(comma_free(e[j].key@));
                    }
                    lemma_split_join(views(ks@));
                    assert(split_commas(g.keys@) == views(ks@));
                    assert(split_commas(g.keys@).no_duplicates());
                    assert forall|k: Seq<char>| #[trigger] split_commas(g.keys@).contains(k) implies m.contains_key(k) && m[k] == split_commas(g.fields@) by {
                        let y = choose|y: int| 0 <= y < views(ks@).len() && views(ks@)[y] == k;
                        assert(views(ks@)[y] == ks@[y]@);
                        assert(key_seen(e, e.len() as int, ks@[y]@, f));
                        let j = choose|j: int| #![trigger e[j]] 0 <= j < e.len() && e[j].key@ == ks@[y]@ && e[j].fields@ == f;
                        lemma_assoc_at(entry_views(e), j);
                        assert(entry_views(e)[j] == (e[j].key@, split_commas(e[j].fields@)));
                    }
                    assert forall|k: Seq<char>| #[trigger] m.contains_key(k) && m[k] == split_commas(g.fields@) implies split_commas(g.keys@).contains(k) by {
                        let ev = entry_views(e);
                        let j = choose|j: int| 0 <= j < ev.len() && #[trigger] ev[j].0 == k;
                        lemma_assoc_at(ev, j);
                        assert(ev[j] == (e[j].key@, split_commas(e[j].fields@)));
                        lemma_join_split(e[j].fields@);
                        lemma_join_split(f);
                        assert(e[j].fields@ == f);
                        assert(views(ks@).contains(e[j].key@));
                    }
                    assert(group_ok(g, self@));
                }
                let ghost old_origin = origin;
                gs.push(g);
                proof {
                    origin = origin.push(i as int);
                }
                proof {
                    let e = se.entries@;
                    let n = before.len() as int;
                    assert(gs@ == before.push(g));
                    assert(base <= n);
                    assert forall|t: int| 0 <= t < n implies #[trigger] gs@[t] == before[t] && origin[t] == old_origin[t] by {}
                    assert(old_origin.len() == n);
                    assert(origin == old_origin.push(i as int));
                    assert(origin[n] == i);
                    assert(gs@[n] == g);
                    assert forall|t: int| 0 <= t < gs@.len() implies group_ok(#[trigger] gs@[t], self@) by {
                        if t < n {
                            assert(gs@[t] == before[t]);
                        }
                    }
                    assert forall|t: int| 0 <= t < base implies 0 <= #[trigger] origin[t] < i && gs@[t].service@ == self.services@[origin[t]].service@ by {
                        assert(gs@[t] == before[t]);
                    }
                    assert forall|t: int| base <= t < gs@.len() implies #[trigger] origin[t] == i by {
                        if t < n {
                            assert(origin[t] == old_origin[t]);
                            assert(base <= t < before.len());
                            assert(old_origin[t] == i);
                        }
                    }
                    assert forall|t: int| #![trigger gs@[t]] base <= t < gs@.len() implies gs@[t].service@ == svc && gs@[t].fields@ == fs@[t - base]@ by {
                        if t < n {
                            assert(gs@[t] == before[t]);
                        }
                    }
                    assert forall|idx: int, k: Seq<char>| 0 <= idx < i && #[trigger] assoc_map(entry_views(self.services@[idx].entries@)).contains_key(k) implies replay_covers(gs@, self.services@[idx].service@, k) by {
                        lemma_covers_push(before, g, self.services@[idx].service@, k);
                    }
                    assert forall|j: int, x1: int| 0 <= j < e.len() && 0 <= x1 < x + 1 && #[trigger] e[j].fields@ == #[trigger] fs@[x1]@ implies replay_covers(gs@, svc, e[j].key@) by {
                        if x1 < x {
                            lemma_covers_push(before, g, svc, e[j].key@);
                        } else {
                            assert(views(ks@).contains(e[j].key@));
                            assert(split_commas(gs@[n].keys@).contains(e[j].key@));
                        }
                    }
                    assert forall|t: int, u: int| 0 <= t < gs@.len() && 0 <= u < gs@.len() && t != u && #[trigger] gs@[t].service@ == #[trigger] gs@[u].service@ implies gs@[t].fields@ != gs@[u].fields@ by {
                        if t < n && u < n {
                            assert(gs@[t] == before[t]);
                            assert(gs@[u] == before[u]);
                        } else {
                            let other = if t < n { t } else { u };
                            assert(gs@[other] == before[other]);
                            if other < base {
                                let idx = origin[other];
                                assert(sv[idx].0 == self.services@[idx].service@);
                                assert(sv[i as int].0 == svc);
                                assert(false);
                            } else {
                                assert(before[other].fields@ == fs@[other - base]@);
                            }
                        }
                    }
                }
                x = x + 1;
            }
            proof {
                let e = se.entries@;
                assert forall|idx: int, k: Seq<char>| 0 <= idx < i + 1 && #[trigger] assoc_map(entry_views(self.services@[idx].entries@)).contains_key(k) implies replay_covers(gs@, self.services@[idx].service@, k) by {
                    if idx == i {
                        let ev = entry_views(e);
                        let j = choose|j: int| 0 <= j < ev.len() && #[trigger] ev[j].0 == k;
                        assert(ev[j].0 == e[j].key@);
                        assert(listed(fs@, e[j].fields@));
                        let x1 = choose|x1: int| #![trigger fs@[x1]] 0 <= x1 < fs@.len() && fs@[x1]@ == e[j].fields@;
                    }
                }
                assert forall|t: int| 0 <= t < gs@.len() implies 0 <= #[trigger] origin[t] < i + 1 && gs@[t].service@ == self.services@[origin[t]].service@ by {
                    if t >= base {
                        assert(origin[t] == i);
                    }
                }
            }
            i = i + 1;
        }
        proof {
            assert forall|s: Seq<char>, k: Seq<char>| #[trigger] self@.contains_key(s) && #[trigger] self@[s].contains_key(k) implies replay_covers(gs@, s, k) by {
                let idx = choose|idx: int| 0 <= idx < sv.len() && #[trigger] sv[idx].0 == s;
                lemma_assoc_at(sv, idx);
                assert(sv[idx] == (self.services@[idx].service@, assoc_map(entry_views(self.services@[idx].entries@))));
            }
        }
        gs
    }
}

} // verus!
