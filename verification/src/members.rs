//! Lists of values under keys, read as maps: where a key occurs twice, its first value counts.
use vstd::prelude::*;

verus! {

/// The map that a list of members stands for: the first member of each key.
pub open spec fn first_members<K, V>(members: Seq<(K, V)>) -> Map<K, V>
    decreases members.len(),
{
    if members.len() == 0 {
        Map::empty()
    } else {
        first_members(members.drop_first()).insert(members[0].0, members[0].1)
    }
}

/// Reading the map of a list of members: the first member of that key, if there is one.
pub proof fn lemma_first_members<K, V>(members: Seq<(K, V)>, key: K, n: int)
    requires
        0 <= n <= members.len(),
        forall|k: int| 0 <= k < n ==> #[trigger] members[k].0 != key,
    ensures
        first_members(members).dom().contains(key) == first_members(members.skip(n)).dom().contains(
            key,
        ),
        first_members(members).dom().contains(key) ==> first_members(members)[key]
            == first_members(members.skip(n))[key],
    decreases n,
{
    if n == 0 {
        assert(members.skip(0) =~= members);
    } else {
        let rest = members.drop_first();
        assert forall|k: int| 0 <= k < n - 1 implies #[trigger] rest[k].0 != key by {
            assert(rest[k] == members[k + 1]);
        }
        lemma_first_members(rest, key, n - 1);
        assert(rest.skip(n - 1) =~= members.skip(n));
        assert(members[0].0 != key);
    }
}

/// Where no earlier member has its key, a member is the one that its key stands for.
pub proof fn lemma_member_of_its_key<K, V>(members: Seq<(K, V)>, i: int)
    requires
        0 <= i < members.len(),
        forall|k: int| 0 <= k < i ==> #[trigger] members[k].0 != members[i].0,
    ensures
        first_members(members).dom().contains(members[i].0),
        first_members(members)[members[i].0] == members[i].1,
{
    lemma_first_members(members, members[i].0, i);
    assert(members.skip(i)[0] == members[i]);
}

/// A key that no member has is not in the map.
pub proof fn lemma_no_member<K, V>(members: Seq<(K, V)>, key: K)
    requires
        forall|k: int| 0 <= k < members.len() ==> #[trigger] members[k].0 != key,
    ensures
        !first_members(members).dom().contains(key),
{
    lemma_first_members(members, key, members.len() as int);
    assert(members.skip(members.len() as int).len() == 0);
}

/// Replacing the first member of a key replaces its value in the map.
pub proof fn lemma_replace_member<K, V>(members: Seq<(K, V)>, i: int, value: V)
    requires
        0 <= i < members.len(),
        forall|k: int| 0 <= k < i ==> #[trigger] members[k].0 != members[i].0,
    ensures
        first_members(members.update(i, (members[i].0, value))) == first_members(members).insert(
            members[i].0,
            value,
        ),
    decreases members.len(),
{
    let key = members[i].0;
    let after = members.update(i, (key, value));
    let rest = members.drop_first();
    if i == 0 {
        assert(after.drop_first() =~= rest);
    } else {
        assert forall|k: int| 0 <= k < i - 1 implies #[trigger] rest[k].0 != rest[i - 1].0 by {
            assert(rest[k] == members[k + 1]);
        }
        lemma_replace_member(rest, i - 1, value);
        assert(after.drop_first() =~= rest.update(i - 1, (key, value)));
        assert(members[0].0 != key);
    }
    assert(first_members(after) =~= first_members(members).insert(key, value));
}

/// A member with a new key is added to the map.
pub proof fn lemma_push_member<K, V>(members: Seq<(K, V)>, key: K, value: V)
    requires
        forall|k: int| 0 <= k < members.len() ==> #[trigger] members[k].0 != key,
    ensures
        first_members(members.push((key, value))) == first_members(members).insert(key, value),
    decreases members.len(),
{
    let after = members.push((key, value));
    if members.len() == 0 {
        assert(after.drop_first() =~= members);
    } else {
        let rest = members.drop_first();
        assert forall|k: int| 0 <= k < rest.len() implies #[trigger] rest[k].0 != key by {
            assert(rest[k] == members[k + 1]);
        }
        lemma_push_member(rest, key, value);
        assert(after.drop_first() =~= rest.push((key, value)));
        assert(members[0].0 != key);
    }
    assert(first_members(after) =~= first_members(members).insert(key, value));
}

/// A further member of a key that has one changes nothing.
proof fn lemma_push_repeated_member<K, V>(members: Seq<(K, V)>, key: K, value: V)
    requires
        first_members(members).dom().contains(key),
    ensures
        first_members(members.push((key, value))) == first_members(members),
    decreases members.len(),
{
    let after = members.push((key, value));
    let rest = members.drop_first();
    assert(after.drop_first() =~= rest.push((key, value)));
    if first_members(rest).dom().contains(key) {
        lemma_push_repeated_member(rest, key, value);
    } else {
        lemma_absent(rest, key);
        lemma_push_member(rest, key, value);
        assert(members[0].0 == key);
    }
    assert(first_members(after) =~= first_members(members));
}

/// No member has a key that is not in the map.
proof fn lemma_absent<K, V>(members: Seq<(K, V)>, key: K)
    requires
        !first_members(members).dom().contains(key),
    ensures
        forall|k: int| 0 <= k < members.len() ==> #[trigger] members[k].0 != key,
    decreases members.len(),
{
    if members.len() > 0 {
        let rest = members.drop_first();
        lemma_absent(rest, key);
        assert forall|k: int| 0 <= k < members.len() implies #[trigger] members[k].0 != key by {
            if k > 0 {
                assert(members[k] == rest[k - 1]);
            }
        }
    }
}

/// A further member adds its key where it is new.
pub proof fn lemma_push_any<K, V>(members: Seq<(K, V)>, key: K, value: V)
    ensures
        first_members(members.push((key, value))) == (if first_members(members).dom().contains(
            key,
        ) {
            first_members(members)
        } else {
            first_members(members).insert(key, value)
        }),
{
    if first_members(members).dom().contains(key) {
        lemma_push_repeated_member(members, key, value);
    } else {
        lemma_absent(members, key);
        lemma_push_member(members, key, value);
    }
}

} // verus!
