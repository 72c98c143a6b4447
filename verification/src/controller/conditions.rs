//! Conditions of a node's status: at most one of each type, and each with the
//! time at which its status last changed.

use vstd::prelude::*;

use crate::clock::now_text;
use crate::crd::stellar_node;
use crate::crd::types::{Condition, ConditionView};
use crate::lists::{no_items, push_item};
use crate::text::same_text;

verus! {

pub const CONDITION_TYPE_READY: &'static str = "Ready";

pub const CONDITION_TYPE_PROGRESSING: &'static str = "Progressing";

pub const CONDITION_TYPE_DEGRADED: &'static str = "Degraded";

pub const CONDITION_STATUS_TRUE: &'static str = "True";

pub const CONDITION_STATUS_FALSE: &'static str = "False";

pub const CONDITION_STATUS_UNKNOWN: &'static str = "Unknown";

/// The position of the first condition of a type, from `i` on; the length where
/// there is none.
pub open spec fn position(conditions: Seq<ConditionView>, type_: Seq<char>, i: nat) -> nat
    decreases conditions.len() - i,
{
    if i >= conditions.len() {
        conditions.len()
    } else if conditions[i as int].type_ == type_ {
        i
    } else {
        position(conditions, type_, i + 1)
    }
}

/// A condition after its status was set at the time `now`: the time of the last
/// transition moves only where the status changes.
pub open spec fn restated(
    condition: ConditionView,
    status: Seq<char>,
    reason: Seq<char>,
    message: Seq<char>,
    now: Seq<char>,
) -> ConditionView {
    ConditionView {
        status,
        reason,
        message,
        last_transition_time: if condition.status == status {
            condition.last_transition_time
        } else {
            now
        },
        ..condition
    }
}

/// The conditions after the status of one type was set at the time `now`.
pub open spec fn with_condition(
    conditions: Seq<ConditionView>,
    type_: Seq<char>,
    status: Seq<char>,
    reason: Seq<char>,
    message: Seq<char>,
    now: Seq<char>,
) -> Seq<ConditionView> {
    let i = position(conditions, type_, 0);
    if i < conditions.len() {
        conditions.update(
            i as int,
            restated(conditions[i as int], status, reason, message, now),
        )
    } else {
        conditions.push(
            ConditionView {
                type_,
                status,
                last_transition_time: now,
                reason,
                message,
                observed_generation: None,
            },
        )
    }
}

/// The conditions that are not of a type.
pub open spec fn without_condition(conditions: Seq<ConditionView>, type_: Seq<char>) -> Seq<
    ConditionView,
>
    decreases conditions.len(),
{
    if conditions.len() == 0 {
        seq![]
    } else if conditions.last().type_ == type_ {
        without_condition(conditions.drop_last(), type_)
    } else {
        without_condition(conditions.drop_last(), type_).push(conditions.last())
    }
}

/// The conditions, set for a generation where one is given.
pub open spec fn observed_at(conditions: Seq<ConditionView>, generation: Option<i64>) -> Seq<
    ConditionView,
> {
    if generation is Some {
        Seq::new(
            conditions.len(),
            |i: int| ConditionView { observed_generation: generation, ..conditions[i] },
        )
    } else {
        conditions
    }
}

/// Sets the status of a condition at the time `now`.
pub fn set_condition_at(
    conditions: &mut Vec<Condition>,
    type_: &str,
    status: &str,
    reason: &str,
    message: &str,
    now: &str,
)
    ensures
        final(conditions).deep_view() == with_condition(
            old(conditions).deep_view(),
            type_@,
            status@,
            reason@,
            message@,
            now@,
        ),
{
    let ghost before = conditions.deep_view();
    let n: usize = conditions.len();
    let mut i: usize = 0;
    while i < n && !same_text(conditions[i].type_.as_str(), type_)
        invariant
            i <= n,
            n == conditions@.len(),
            conditions.deep_view() == before,
            position(before, type_@, 0) == position(before, type_@, i as nat),
        decreases n - i,
    {
        i = i + 1;
    }
    if i < n {
        let old_condition: &Condition = &conditions[i];
        let last_transition_time = if same_text(old_condition.status.as_str(), status) {
            old_condition.last_transition_time.clone()
        } else {
            now.to_owned()
        };
        let condition = Condition {
            type_: old_condition.type_.clone(),
            status: status.to_owned(),
            last_transition_time,
            reason: reason.to_owned(),
            message: message.to_owned(),
            observed_generation: old_condition.observed_generation,
        };
        let ghost set = condition.deep_view();
        conditions[i] = condition;
        assert(conditions.deep_view() =~= before.update(i as int, set));
    } else {
        push_item(
            conditions,
            Condition {
                type_: type_.to_owned(),
                status: status.to_owned(),
                last_transition_time: now.to_owned(),
                reason: reason.to_owned(),
                message: message.to_owned(),
                observed_generation: None,
            },
        );
    }
}

/// Sets the status of a condition now.
pub fn set_condition(
    conditions: &mut Vec<Condition>,
    type_: &str,
    status: &str,
    reason: &str,
    message: &str,
)
    ensures
        exists|now: Seq<char>|
            final(conditions).deep_view() == #[trigger] with_condition(
                old(conditions).deep_view(),
                type_@,
                status@,
                reason@,
                message@,
                now,
            ),
{
    let now = now_text();
    set_condition_at(conditions, type_, status, reason, message, now.as_str());
}

/// Removes the conditions of a type.
pub fn remove_condition(conditions: &mut Vec<Condition>, type_: &str)
    ensures
        final(conditions).deep_view() == without_condition(old(conditions).deep_view(), type_@),
{
    let ghost before = conditions.deep_view();
    let mut kept: Vec<Condition> = no_items();
    for i in 0..conditions.len()
        invariant
            before == conditions.deep_view(),
            kept.deep_view() == without_condition(before.take(i as int), type_@),
    {
        proof {
            assert(before.take(i + 1).drop_last() =~= before.take(i as int));
            assert(before.take(i + 1).last() == before[i as int]);
        }
        if !same_text(conditions[i].type_.as_str(), type_) {
            push_item(&mut kept, conditions[i].clone());
        }
    }
    assert(before.take(before.len() as int) =~= before);
    *conditions = kept;
}

/// Marks conditions as set for a generation, where one is given.
pub fn observe_generation(conditions: &mut Vec<Condition>, generation: Option<i64>)
    ensures
        final(conditions).deep_view() == observed_at(old(conditions).deep_view(), generation),
{
    if generation.is_some() {
        let ghost before = conditions.deep_view();
        let ghost wanted = observed_at(before, generation);
        let mut marked: Vec<Condition> = no_items();
        for i in 0..conditions.len()
            invariant
                before == conditions.deep_view(),
                wanted == observed_at(before, generation),
                generation is Some,
                marked.deep_view() == wanted.take(i as int),
        {
            let mut condition = conditions[i].clone();
            condition.observed_generation = generation;
            push_item(&mut marked, condition);
            assert(wanted.take(i + 1) =~= wanted.take(i as int).push(wanted[i as int]));
        }
        assert(wanted.take(wanted.len() as int) =~= wanted);
        *conditions = marked;
    }
}

/// Whether no two conditions are of the same type.
pub open spec fn distinct_types(conditions: Seq<ConditionView>) -> bool {
    forall|i: int, j: int|
        #![trigger conditions[i], conditions[j]]
        0 <= i < j < conditions.len() ==> conditions[i].type_ != conditions[j].type_
}

proof fn lemma_position(conditions: Seq<ConditionView>, type_: Seq<char>, i: nat)
    ensures
        position(conditions, type_, i) <= conditions.len() || i > conditions.len(),
        i <= conditions.len() ==> i <= position(conditions, type_, i),
        position(conditions, type_, i) < conditions.len() ==> conditions[position(
            conditions,
            type_,
            i,
        ) as int].type_ == type_,
        forall|j: int|
            i <= j < position(conditions, type_, i) && j < conditions.len() ==> (
            #[trigger] conditions[j]).type_ != type_,
        stellar_node::find_condition(conditions, type_, i) == if i <= position(
            conditions,
            type_,
            i,
        ) < conditions.len() {
            Some(conditions[position(conditions, type_, i) as int])
        } else {
            None
        },
    decreases conditions.len() - i,
{
    if i < conditions.len() && conditions[i as int].type_ != type_ {
        lemma_position(conditions, type_, i + 1);
    }
}

/// The first condition of a type is the one at the only position where the types
/// differ before it.
proof fn lemma_find(conditions: Seq<ConditionView>, type_: Seq<char>, k: nat)
    requires
        k <= conditions.len(),
        k < conditions.len() ==> conditions[k as int].type_ == type_,
        forall|j: int| 0 <= j < k ==> (#[trigger] conditions[j]).type_ != type_,
    ensures
        position(conditions, type_, 0) == k,
        stellar_node::find_condition(conditions, type_, 0) == if k < conditions.len() {
            Some(conditions[k as int])
        } else {
            None
        },
{
    lemma_position(conditions, type_, 0);
    let p = position(conditions, type_, 0);
    if p < k {
        assert(conditions[p as int].type_ != type_);
    }
    if k < p {
        assert(conditions[k as int].type_ != type_);
    }
}

/// A condition that was set is found as it was set, and the conditions of other
/// types are found as before.
pub proof fn set_condition_is_found(
    conditions: Seq<ConditionView>,
    type_: Seq<char>,
    status: Seq<char>,
    reason: Seq<char>,
    message: Seq<char>,
    now: Seq<char>,
    other: Seq<char>,
)
    ensures
        ({
            let after = with_condition(conditions, type_, status, reason, message, now);
            let found = stellar_node::find_condition(after, type_, 0);
            &&& found is Some
            &&& found->0.type_ == type_
            &&& found->0.status == status
            &&& found->0.reason == reason
            &&& found->0.message == message
            &&& other != type_ ==> stellar_node::find_condition(after, other, 0)
                == stellar_node::find_condition(conditions, other, 0)
        }),
{
    let after = with_condition(conditions, type_, status, reason, message, now);
    lemma_position(conditions, type_, 0);
    let i = position(conditions, type_, 0);
    assert forall|j: int| 0 <= j < i implies (#[trigger] after[j]).type_ != type_ by {
        assert(after[j] == conditions[j]);
    }
    lemma_find(after, type_, i);
    if other != type_ {
        lemma_position(conditions, other, 0);
        let k = position(conditions, other, 0);
        let m = if k < conditions.len() {
            k
        } else {
            after.len()
        };
        assert forall|j: int| 0 <= j < m implies (#[trigger] after[j]).type_ != other by {
            if j < conditions.len() {
                assert(conditions[j].type_ != other || j == k);
            }
        }
        lemma_find(after, other, m);
    }
}

/// Setting a condition to the status that it has keeps the time of its last
/// transition; setting it to another status moves it to the present.
pub proof fn transition_time_moves_with_status(
    conditions: Seq<ConditionView>,
    type_: Seq<char>,
    status: Seq<char>,
    reason: Seq<char>,
    message: Seq<char>,
    now: Seq<char>,
)
    ensures
        ({
            let before = stellar_node::find_condition(conditions, type_, 0);
            let after = stellar_node::find_condition(
                with_condition(conditions, type_, status, reason, message, now),
                type_,
                0,
            );
            if before is Some && before->0.status == status {
                after->0.last_transition_time == before->0.last_transition_time
            } else {
                after->0.last_transition_time == now
            }
        }),
{
    let after = with_condition(conditions, type_, status, reason, message, now);
    lemma_position(conditions, type_, 0);
    let i = position(conditions, type_, 0);
    assert forall|j: int| 0 <= j < i implies (#[trigger] after[j]).type_ != type_ by {
        assert(after[j] == conditions[j]);
    }
    lemma_find(after, type_, i);
}

proof fn lemma_without(conditions: Seq<ConditionView>, type_: Seq<char>)
    ensures
        forall|j: int|
            0 <= j < without_condition(conditions, type_).len() ==> (
            #[trigger] without_condition(conditions, type_)[j]).type_ != type_,
        forall|j: int|
            0 <= j < without_condition(conditions, type_).len() ==> conditions.contains(
                #[trigger] without_condition(conditions, type_)[j],
            ),
        forall|j: int|
            0 <= j < conditions.len() && (#[trigger] conditions[j]).type_ != type_
                ==> without_condition(conditions, type_).contains(conditions[j]),
        distinct_types(conditions) ==> distinct_types(without_condition(conditions, type_)),
    decreases conditions.len(),
{
    if conditions.len() > 0 {
        let rest = conditions.drop_last();
        let last = conditions.last();
        lemma_without(rest, type_);
        let kept = without_condition(rest, type_);
        let after = without_condition(conditions, type_);
        assert forall|j: int| 0 <= j < after.len() implies conditions.contains(
            #[trigger] after[j],
        ) by {
            if j < kept.len() {
                assert(after[j] == kept[j]);
                let k = choose|k: int| 0 <= k < rest.len() && rest[k] == kept[j];
                assert(conditions[k] == after[j]);
            } else {
                assert(conditions[conditions.len() - 1] == after[j]);
            }
        }
        assert forall|j: int|
            0 <= j < conditions.len() && (#[trigger] conditions[j]).type_
                != type_ implies after.contains(conditions[j]) by {
            if j < rest.len() {
                assert(rest[j] == conditions[j]);
                let k = choose|k: int| 0 <= k < kept.len() && kept[k] == rest[j];
                assert(after[k] == conditions[j]);
            } else {
                assert(after[after.len() - 1] == conditions[j]);
            }
        }
        if distinct_types(conditions) {
            assert(distinct_types(rest)) by {
                assert forall|i: int, j: int|
                    #![trigger rest[i], rest[j]]
                    0 <= i < j < rest.len() implies rest[i].type_ != rest[j].type_ by {
                    assert(rest[i] == conditions[i] && rest[j] == conditions[j]);
                }
            }
            assert forall|i: int, j: int|
                #![trigger after[i], after[j]]
                0 <= i < j < after.len() implies after[i].type_ != after[j].type_ by {
                if j < kept.len() {
                    assert(after[i] == kept[i] && after[j] == kept[j]);
                } else {
                    assert(after[i] == kept[i]);
                    let k = choose|k: int| 0 <= k < rest.len() && rest[k] == kept[i];
                    assert(conditions[k] == after[i]);
                    assert(conditions[conditions.len() - 1] == after[j]);
                }
            }
        }
    }
}

proof fn lemma_without_find(conditions: Seq<ConditionView>, type_: Seq<char>, other: Seq<char>)
    requires
        other != type_,
    ensures
        stellar_node::find_condition(without_condition(conditions, type_), other, 0)
            == stellar_node::find_condition(conditions, other, 0),
    decreases conditions.len(),
{
    if conditions.len() > 0 {
        let rest = conditions.drop_last();
        lemma_without_find(rest, type_, other);
        let kept = without_condition(rest, type_);
        let after = without_condition(conditions, type_);
        lemma_position(rest, other, 0);
        lemma_position(kept, other, 0);
        let p = position(rest, other, 0);
        let q = position(kept, other, 0);
        if p < rest.len() {
            assert forall|j: int| 0 <= j < p implies (#[trigger] conditions[j]).type_ != other by {
                assert(conditions[j] == rest[j]);
            }
            lemma_find(conditions, other, p);
            assert forall|j: int| 0 <= j < q implies (#[trigger] after[j]).type_ != other by {
                assert(after[j] == kept[j]);
            }
            assert(after[q as int] == kept[q as int]);
            lemma_find(after, other, q);
        } else {
            assert forall|j: int| 0 <= j < rest.len() implies (#[trigger] conditions[j]).type_
                != other by {
                assert(conditions[j] == rest[j]);
            }
            assert forall|j: int| 0 <= j < kept.len() implies (#[trigger] after[j]).type_
                != other by {
                assert(after[j] == kept[j]);
            }
            if conditions.last().type_ == other {
                lemma_find(conditions, other, rest.len());
                lemma_find(after, other, kept.len());
            } else {
                lemma_find(conditions, other, conditions.len());
                lemma_find(after, other, after.len());
            }
        }
    }
}

/// A condition that was removed is not found, and the conditions of other types
/// are found as before.
pub proof fn removed_condition_is_not_found(
    conditions: Seq<ConditionView>,
    type_: Seq<char>,
    other: Seq<char>,
)
    ensures
        stellar_node::find_condition(without_condition(conditions, type_), type_, 0) is None,
        other != type_ ==> stellar_node::find_condition(
            without_condition(conditions, type_),
            other,
            0,
        ) == stellar_node::find_condition(conditions, other, 0),
{
    lemma_without(conditions, type_);
    let after = without_condition(conditions, type_);
    lemma_find(after, type_, after.len());
    if other != type_ {
        lemma_without_find(conditions, type_, other);
    }
}

/// Setting and removing conditions and marking them as observed never makes two
/// conditions of the same type.
pub proof fn types_stay_distinct(
    conditions: Seq<ConditionView>,
    type_: Seq<char>,
    status: Seq<char>,
    reason: Seq<char>,
    message: Seq<char>,
    now: Seq<char>,
    generation: Option<i64>,
)
    requires
        distinct_types(conditions),
    ensures
        distinct_types(with_condition(conditions, type_, status, reason, message, now)),
        distinct_types(without_condition(conditions, type_)),
        distinct_types(observed_at(conditions, generation)),
{
    let after = with_condition(conditions, type_, status, reason, message, now);
    lemma_position(conditions, type_, 0);
    assert forall|i: int, j: int|
        #![trigger after[i], after[j]]
        0 <= i < j < after.len() implies after[i].type_ != after[j].type_ by {
        assert(conditions[i].type_ == after[i].type_);
        if j < conditions.len() {
            assert(conditions[j].type_ == after[j].type_);
        }
    }
    lemma_without(conditions, type_);
    let marked = observed_at(conditions, generation);
    assert forall|i: int, j: int|
        #![trigger marked[i], marked[j]]
        0 <= i < j < marked.len() implies marked[i].type_ != marked[j].type_ by {
        assert(conditions[i].type_ != conditions[j].type_);
    }
}

/// Where no two conditions are of the same type, a condition has a status exactly
/// when the one that is found has it.
pub proof fn found_condition_decides(
    conditions: Seq<ConditionView>,
    type_: Seq<char>,
    status: Seq<char>,
)
    requires
        distinct_types(conditions),
    ensures
        stellar_node::has_condition(conditions, type_, status) <==> (stellar_node::find_condition(
            conditions,
            type_,
            0,
        ) is Some && stellar_node::find_condition(conditions, type_, 0)->0.status == status),
{
    lemma_position(conditions, type_, 0);
    let p = position(conditions, type_, 0);
    if stellar_node::has_condition(conditions, type_, status) {
        let i = choose|i: int|
            0 <= i < conditions.len() && (#[trigger] conditions[i]).type_ == type_
                && conditions[i].status == status;
        if p < i {
            assert(conditions[p as int].type_ != conditions[i].type_);
        } else if i < p {
            assert(conditions[i].type_ != type_);
        }
    } else if p < conditions.len() {
        assert(conditions[p as int].type_ == type_);
    }
}

/// Marking conditions as observed changes neither which condition is found nor
/// its status, reason or message.
pub proof fn observation_changes_nothing_else(
    conditions: Seq<ConditionView>,
    generation: Option<i64>,
    type_: Seq<char>,
)
    ensures
        ({
            let before = stellar_node::find_condition(conditions, type_, 0);
            let after = stellar_node::find_condition(
                observed_at(conditions, generation),
                type_,
                0,
            );
            match before {
                None => after is None,
                Some(condition) => after == Some(
                    if generation is Some {
                        ConditionView { observed_generation: generation, ..condition }
                    } else {
                        condition
                    },
                ),
            }
        }),
{
    lemma_position(conditions, type_, 0);
    let p = position(conditions, type_, 0);
    let after = observed_at(conditions, generation);
    assert forall|j: int| 0 <= j < p implies (#[trigger] after[j]).type_ != type_ by {
        assert(conditions[j].type_ != type_);
    }
    lemma_find(after, type_, p);
}

} // verus!
