use crate::command::{order_key, Command, CommandView};
use vstd::prelude::*;

verus! {

/// `sorted` with `c` placed after every command whose key is not larger.
pub open spec fn insert_by_order(sorted: Seq<CommandView>, c: CommandView) -> Seq<CommandView>
    decreases sorted.len(),
{
    if sorted.len() == 0 || order_key(sorted.last()) <= order_key(c) {
        sorted.push(c)
    } else {
        insert_by_order(sorted.drop_last(), c).push(sorted.last())
    }
}

/// The commands in execution order: ascending by key, and in their listed
/// order where keys are equal.
pub open spec fn sort_by_order(commands: Seq<CommandView>) -> Seq<CommandView>
    decreases commands.len(),
{
    if commands.len() == 0 {
        commands
    } else {
        insert_by_order(sort_by_order(commands.drop_last()), commands.last())
    }
}

/// Ascending by key.
pub open spec fn ordered(commands: Seq<CommandView>) -> bool {
    forall|i: int, j: int|
        0 <= i < j < commands.len() ==> order_key(#[trigger] commands[i]) <= order_key(
            #[trigger] commands[j],
        )
}

/// Inserting at the first position, counted from the end, after which every
/// key is larger.
proof fn lemma_insert_at(sorted: Seq<CommandView>, c: CommandView, j: int)
    requires
        0 <= j <= sorted.len(),
        j == 0 || order_key(sorted[j - 1]) <= order_key(c),
        forall|k: int| j <= k < sorted.len() ==> order_key(#[trigger] sorted[k]) > order_key(c),
    ensures
        insert_by_order(sorted, c) == sorted.take(j) + seq![c] + sorted.skip(j),
    decreases sorted.len(),
{
    if sorted.len() == j {
        assert(sorted.take(j) =~= sorted);
        assert(sorted.skip(j) =~= Seq::<CommandView>::empty());
        assert(sorted.push(c) =~= sorted.take(j) + seq![c] + sorted.skip(j));
    } else {
        let rest = sorted.drop_last();
        lemma_insert_at(rest, c, j);
        assert(rest.take(j) =~= sorted.take(j));
        assert(rest.skip(j).push(sorted.last()) =~= sorted.skip(j));
        assert((rest.take(j) + seq![c] + rest.skip(j)).push(sorted.last()) =~= sorted.take(j)
            + seq![c] + sorted.skip(j));
    }
}

/// Every command of an insertion is the inserted one or one of `sorted`.
proof fn lemma_insert_elements(sorted: Seq<CommandView>, c: CommandView)
    ensures
        insert_by_order(sorted, c).len() == sorted.len() + 1,
        forall|i: int|
            0 <= i < insert_by_order(sorted, c).len() ==> #[trigger] insert_by_order(sorted, c)[i]
                == c || sorted.contains(insert_by_order(sorted, c)[i]),
    decreases sorted.len(),
{
    if sorted.len() > 0 && order_key(sorted.last()) > order_key(c) {
        let rest = sorted.drop_last();
        lemma_insert_elements(rest, c);
        let r = insert_by_order(sorted, c);
        assert forall|i: int| 0 <= i < r.len() implies #[trigger] r[i] == c || sorted.contains(
            r[i],
        ) by {
            if i < r.len() - 1 {
                let x = insert_by_order(rest, c)[i];
                if x != c {
                    let k = choose|k: int| 0 <= k < rest.len() && rest[k] == x;
                    assert(sorted[k] == x);
                }
            } else {
                assert(sorted[sorted.len() - 1] == r[i]);
            }
        }
    } else {
        let r = insert_by_order(sorted, c);
        assert forall|i: int| 0 <= i < r.len() implies #[trigger] r[i] == c || sorted.contains(
            r[i],
        ) by {
            if i < sorted.len() {
                assert(sorted[i] == r[i]);
            }
        }
    }
}

/// Insertion keeps a sequence ordered.
proof fn lemma_insert_ordered(sorted: Seq<CommandView>, c: CommandView)
    requires
        ordered(sorted),
    ensures
        ordered(insert_by_order(sorted, c)),
    decreases sorted.len(),
{
    if sorted.len() > 0 && order_key(sorted.last()) > order_key(c) {
        let rest = sorted.drop_last();
        lemma_insert_ordered(rest, c);
        lemma_insert_elements(rest, c);
        let inner = insert_by_order(rest, c);
        let r = inner.push(sorted.last());
        assert forall|i: int, j: int| 0 <= i < j < r.len() implies order_key(#[trigger] r[i])
            <= order_key(#[trigger] r[j]) by {
            if j == r.len() - 1 && i < j {
                let x = inner[i];
                if x != c {
                    let k = choose|k: int| 0 <= k < rest.len() && rest[k] == x;
                    assert(sorted[k] == x);
                    assert(order_key(sorted[k]) <= order_key(sorted[sorted.len() - 1]));
                }
            } else {
                assert(r[i] == inner[i] && r[j] == inner[j]);
            }
        }
    }
}

/// The execution order is ascending by key, and holds the listed commands.
pub proof fn lemma_sort_by_order(commands: Seq<CommandView>)
    ensures
        ordered(sort_by_order(commands)),
        sort_by_order(commands).len() == commands.len(),
        forall|i: int|
            0 <= i < sort_by_order(commands).len() ==> commands.contains(
                #[trigger] sort_by_order(commands)[i],
            ),
    decreases commands.len(),
{
    if commands.len() > 0 {
        let rest = commands.drop_last();
        lemma_sort_by_order(rest);
        lemma_insert_ordered(sort_by_order(rest), commands.last());
        lemma_insert_elements(sort_by_order(rest), commands.last());
        let r = sort_by_order(commands);
        assert forall|i: int| 0 <= i < r.len() implies commands.contains(#[trigger] r[i]) by {
            if r[i] == commands.last() {
                assert(commands[commands.len() - 1] == r[i]);
            } else {
                let k = choose|k: int|
                    0 <= k < sort_by_order(rest).len() && sort_by_order(rest)[k] == r[i];
                let m = choose|m: int| 0 <= m < rest.len() && rest[m] == sort_by_order(rest)[k];
                assert(commands[m] == r[i]);
            }
        }
    }
}

/// The commands of `s` whose key is `key`, in their order.
pub open spec fn with_key(s: Seq<CommandView>, key: u32) -> Seq<CommandView> {
    s.filter(|c: CommandView| order_key(c) == key)
}

/// Insertion adds `c` behind the commands of its key and leaves the other
/// keys' commands as they were; the commands as a whole gain `c`.
proof fn lemma_insert_keeps_keys(sorted: Seq<CommandView>, c: CommandView, key: u32)
    ensures
        with_key(insert_by_order(sorted, c), key) == if order_key(c) == key {
            with_key(sorted, key).push(c)
        } else {
            with_key(sorted, key)
        },
        insert_by_order(sorted, c).to_multiset() == sorted.to_multiset().insert(c),
    decreases sorted.len(),
{
    broadcast use vstd::seq_lib::group_to_multiset_ensures;

    reveal(Seq::filter);
    if sorted.len() == 0 || order_key(sorted.last()) <= order_key(c) {
        assert(sorted.push(c).drop_last() =~= sorted);
    } else {
        let rest = sorted.drop_last();
        lemma_insert_keeps_keys(rest, c, key);
        let inner = insert_by_order(rest, c);
        assert(inner.push(sorted.last()).drop_last() =~= inner);
        assert(rest.push(sorted.last()) =~= sorted);
        assert(sorted.to_multiset() =~= rest.to_multiset().insert(sorted.last()));
        assert(insert_by_order(sorted, c).to_multiset() =~= sorted.to_multiset().insert(c));
        if order_key(c) == key && order_key(sorted.last()) == key {
            assert(false);
        }
        if order_key(c) == key {
            assert(with_key(insert_by_order(sorted, c), key) =~= with_key(sorted, key).push(c));
        }
    }
}

/// Execution order is a stable permutation: it holds the listed commands,
/// each as often as listed, and the commands of any one key keep their
/// listed order.
pub proof fn lemma_sort_is_stable_permutation(commands: Seq<CommandView>, key: u32)
    ensures
        sort_by_order(commands).to_multiset() == commands.to_multiset(),
        with_key(sort_by_order(commands), key) == with_key(commands, key),
    decreases commands.len(),
{
    broadcast use vstd::seq_lib::group_to_multiset_ensures;

    reveal(Seq::filter);
    if commands.len() > 0 {
        let rest = commands.drop_last();
        lemma_sort_is_stable_permutation(rest, key);
        lemma_insert_keeps_keys(sort_by_order(rest), commands.last(), key);
        assert(rest.push(commands.last()) =~= commands);
        assert(commands.to_multiset() =~= rest.to_multiset().insert(commands.last()));
    }
}

/// In execution order, every command without an `order` comes after every
/// command with one, where no explicit `order` is the largest value.
pub proof fn lemma_unordered_commands_last(commands: Seq<CommandView>, i: int, j: int)
    requires
        forall|k: int| 0 <= k < commands.len() ==> #[trigger] commands[k].order != Some(u32::MAX),
        0 <= i < sort_by_order(commands).len(),
        0 <= j < sort_by_order(commands).len(),
        sort_by_order(commands)[i].order is None,
        sort_by_order(commands)[j].order is Some,
    ensures
        j < i,
{
    lemma_sort_by_order(commands);
    let r = sort_by_order(commands);
    let m = choose|m: int| 0 <= m < commands.len() && commands[m] == r[j];
    assert(commands[m].order != Some(u32::MAX));
    if i < j {
        assert(order_key(r[i]) <= order_key(r[j]));
    }
}

/// The commands in execution order: ascending by `order`, commands without
/// one last, and in their listed order where orders are equal.
pub fn sort_commands(commands: &Vec<Command>) -> (r: Vec<Command>)
    ensures
        r.deep_view() == sort_by_order(commands.deep_view()),
{
    let mut sorted: Vec<Command> = Vec::new();
    let mut i: usize = 0;
    while i < commands.len()
        invariant
            i <= commands.len(),
            sorted.deep_view() == sort_by_order(commands.deep_view().take(i as int)),
        decreases commands.len() - i,
    {
        let c = commands[i].clone();
        let key = c.order();
        let ghost before = sorted.deep_view();
        proof {
            lemma_sort_by_order(commands.deep_view().take(i as int));
        }
        let mut j: usize = sorted.len();
        while j > 0 && sorted[j - 1].order() > key
            invariant
                j <= sorted.len(),
                sorted.deep_view() == before,
                key == order_key(c@),
                forall|k: int| j <= k < before.len() ==> order_key(#[trigger] before[k]) > key,
            decreases j,
        {
            j = j - 1;
        }
        proof {
            lemma_insert_at(before, c@, j as int);
            let taken = commands.deep_view().take(i + 1);
            assert(taken.drop_last() =~= commands.deep_view().take(i as int));
            assert(taken.last() == c@);
        }
        sorted.insert(j, c);
        proof {
            assert(sorted.deep_view() =~= before.take(j as int) + seq![c@] + before.skip(j as int));
        }
        i = i + 1;
    }
    proof {
        assert(commands.deep_view().take(commands.len() as int) =~= commands.deep_view());
    }
    sorted
}

} // verus!
