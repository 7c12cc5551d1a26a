//! Partitioning a project's stories into display buckets by status name.
use vstd::prelude::*;
use crate::model::{UserStory, status_name_of};

verus! {

/// Status names shown in the "new" bucket.
pub open spec fn is_new_name(n: Seq<char>) -> bool {
    n == "New"@
}

/// Status names shown in the "work in progress" bucket, legacy alias included.
pub open spec fn is_wip_name(n: Seq<char>) -> bool {
    n == "In progress"@ || n == "WIP"@
}

/// Status names shown in the "done" bucket, legacy alias included.
pub open spec fn is_done_name(n: Seq<char>) -> bool {
    n == "Done"@ || n == "Ready"@
}

/// Status names that fall outside the fixed buckets.
pub open spec fn is_other_name(n: Seq<char>) -> bool {
    !is_new_name(n) && !is_wip_name(n) && !is_done_name(n)
}

/// The stories of `stories` whose status name is `name`, in their order.
pub open spec fn with_name(stories: Seq<UserStory>, name: Seq<char>) -> Seq<UserStory> {
    stories.filter(|s: UserStory| status_name_of(s) == name)
}

/// The stories of `stories` in the "new" bucket, in their order.
pub open spec fn new_of(stories: Seq<UserStory>) -> Seq<UserStory> {
    stories.filter(|s: UserStory| is_new_name(status_name_of(s)))
}

/// The stories of `stories` in the "work in progress" bucket, in their order.
pub open spec fn wip_of(stories: Seq<UserStory>) -> Seq<UserStory> {
    stories.filter(|s: UserStory| is_wip_name(status_name_of(s)))
}

/// The stories of `stories` in the "done" bucket, in their order.
pub open spec fn done_of(stories: Seq<UserStory>) -> Seq<UserStory> {
    stories.filter(|s: UserStory| is_done_name(status_name_of(s)))
}

/// The stories that share one status name outside the fixed buckets.
#[derive(Debug)]
pub struct StatusGroup {
    pub status: String,
    pub stories: Vec<UserStory>,
}

/// `groups` holds one group per status name of `stories` outside the fixed
/// buckets, each with that name's stories in their order.
pub open spec fn groups_of(groups: Seq<StatusGroup>, stories: Seq<UserStory>) -> bool {
    &&& forall|i: int, j: int|
        0 <= i < j < groups.len() ==> #[trigger] groups[i].status@ != #[trigger] groups[j].status@
    &&& forall|i: int|
        0 <= i < groups.len() ==> {
            &&& is_other_name(#[trigger] groups[i].status@)
            &&& groups[i].stories@ == with_name(stories, groups[i].status@)
            &&& groups[i].stories@.len() > 0
        }
    &&& forall|k: int|
        0 <= k < stories.len() && is_other_name(status_name_of(#[trigger] stories[k])) ==> exists|
            i: int,
        |
            0 <= i < groups.len() && #[trigger] groups[i].status@ == status_name_of(stories[k])
}

/// The number of stories held by `groups`.
pub open spec fn grouped_count(groups: Seq<StatusGroup>) -> nat
    decreases groups.len(),
{
    if groups.len() == 0 {
        0
    } else {
        grouped_count(groups.drop_last()) + groups.last().stories@.len()
    }
}

/// Stories partitioned by status name for display.
pub struct UserStories {
    pub new: Vec<UserStory>,
    pub wip: Vec<UserStory>,
    pub done: Vec<UserStory>,
    /// The remaining stories, one group per status name, in order of first appearance.
    pub other: Vec<StatusGroup>,
}

/// The number of stories in all buckets together.
pub open spec fn total_of(u: UserStories) -> nat {
    u.new@.len() + u.wip@.len() + u.done@.len() + grouped_count(u.other@)
}

/// The groups of a prefix hold no more stories than all the groups.
proof fn lemma_grouped_prefix(groups: Seq<StatusGroup>, i: int)
    requires
        0 <= i <= groups.len(),
    ensures
        grouped_count(groups.subrange(0, i)) <= grouped_count(groups),
    decreases groups.len(),
{
    if i < groups.len() {
        assert(groups.drop_last().subrange(0, i) =~= groups.subrange(0, i));
        lemma_grouped_prefix(groups.drop_last(), i);
    } else {
        assert(groups.subrange(0, i) =~= groups);
    }
}

/// Replacing one group changes the grouped count by the difference in size.
proof fn lemma_grouped_update(groups: Seq<StatusGroup>, g: int, v: StatusGroup)
    requires
        0 <= g < groups.len(),
    ensures
        grouped_count(groups.update(g, v)) + groups[g].stories@.len() == grouped_count(groups)
            + v.stories@.len(),
    decreases groups.len(),
{
    let u = groups.update(g, v);
    if g == groups.len() - 1 {
        assert(u.drop_last() =~= groups.drop_last());
    } else {
        assert(u.drop_last() =~= groups.drop_last().update(g, v));
        lemma_grouped_update(groups.drop_last(), g, v);
    }
}

/// Taking one more element of `s` into a filter extends it by that element
/// exactly when it satisfies the predicate.
proof fn lemma_filter_step(s: Seq<UserStory>, i: int, p: spec_fn(UserStory) -> bool)
    requires
        0 <= i < s.len(),
    ensures
        s.subrange(0, i + 1).filter(p) == if p(s[i]) {
            s.subrange(0, i).filter(p).push(s[i])
        } else {
            s.subrange(0, i).filter(p)
        },
{
    reveal(Seq::filter);
    assert(s.subrange(0, i + 1).drop_last() =~= s.subrange(0, i));
}

/// Filtering a sequence extended by one element.
proof fn lemma_filter_push(s: Seq<UserStory>, x: UserStory, p: spec_fn(UserStory) -> bool)
    ensures
        s.push(x).filter(p) == if p(x) {
            s.filter(p).push(x)
        } else {
            s.filter(p)
        },
{
    reveal(Seq::filter);
    assert(s.push(x).drop_last() =~= s);
}

/// Groups stay exact when a story of a fixed bucket is appended.
proof fn lemma_groups_keep(groups: Seq<StatusGroup>, prev: Seq<UserStory>, st: UserStory)
    requires
        groups_of(groups, prev),
        !is_other_name(status_name_of(st)),
    ensures
        groups_of(groups, prev.push(st)),
{
    let next = prev.push(st);
    assert forall|g: int| 0 <= g < groups.len() implies (#[trigger] groups[g]).stories@ == with_name(
        next,
        groups[g].status@,
    ) by {
        lemma_filter_push(prev, st, |x: UserStory| status_name_of(x) == groups[g].status@);
    }
    assert forall|k: int|
        0 <= k < next.len() && is_other_name(status_name_of(#[trigger] next[k])) implies exists|i: int|
        0 <= i < groups.len() && #[trigger] groups[i].status@ == status_name_of(next[k]) by {
        assert(k < prev.len());
        assert(next[k] == prev[k]);
    }
}

/// A filter that no element satisfies is empty.
proof fn lemma_filter_none(s: Seq<UserStory>, p: spec_fn(UserStory) -> bool)
    requires
        forall|k: int| 0 <= k < s.len() ==> !p(#[trigger] s[k]),
    ensures
        s.filter(p) == Seq::<UserStory>::empty(),
    decreases s.len(),
{
    reveal(Seq::filter);
    if s.len() > 0 {
        assert forall|k: int| 0 <= k < s.drop_last().len() implies !p(#[trigger] s.drop_last()[k]) by {
            assert(s.drop_last()[k] == s[k]);
        }
        lemma_filter_none(s.drop_last(), p);
    }
}

/// The position of the group named `name`, if there is one.
fn group_index(groups: &Vec<StatusGroup>, name: &String) -> (r: Option<usize>)
    ensures
        match r {
            Some(g) => g < groups@.len() && groups@[g as int].status@ == name@,
            None => forall|j: int| 0 <= j < groups@.len() ==> #[trigger] groups@[j].status@ != name@,
        },
{
    let mut g: usize = 0;
    while g < groups.len()
        invariant
            g <= groups@.len(),
            forall|j: int| 0 <= j < g ==> #[trigger] groups@[j].status@ != name@,
        decreases groups@.len() - g,
    {
        if groups[g].status == *name {
            return Some(g);
        }
        g = g + 1;
    }
    None
}

impl UserStories {
    /// Partitions `stories` by status name: "New"; "In progress" or "WIP";
    /// "Done" or "Ready"; any other name in a group of its own. Each bucket
    /// keeps the input order.
    pub fn new(stories: Vec<UserStory>) -> (r: Self)
        ensures
            r.new@ == new_of(stories@),
            r.wip@ == wip_of(stories@),
            r.done@ == done_of(stories@),
            groups_of(r.other@, stories@),
            total_of(r) == stories@.len(),
    {
        let mut new: Vec<UserStory> = Vec::new();
        let mut wip: Vec<UserStory> = Vec::new();
        let mut done: Vec<UserStory> = Vec::new();
        let mut other: Vec<StatusGroup> = Vec::new();
        let new_name = String::from_str("New");
        let wip_name = String::from_str("In progress");
        let wip_alias = String::from_str("WIP");
        let done_name = String::from_str("Done");
        let done_alias = String::from_str("Ready");
        let ghost s = stories@;
        let ghost p_new = |x: UserStory| is_new_name(status_name_of(x));
        let ghost p_wip = |x: UserStory| is_wip_name(status_name_of(x));
        let ghost p_done = |x: UserStory| is_done_name(status_name_of(x));
        proof {
            assert(s.subrange(0, 0) =~= Seq::<UserStory>::empty());
            reveal(Seq::filter);
        }
        let mut i: usize = 0;
        while i < stories.len()
            invariant
                s == stories@,
                i <= s.len(),
                p_new == (|x: UserStory| is_new_name(status_name_of(x))),
                p_wip == (|x: UserStory| is_wip_name(status_name_of(x))),
                p_done == (|x: UserStory| is_done_name(status_name_of(x))),
                new_name@ == "New"@,
                wip_name@ == "In progress"@,
                wip_alias@ == "WIP"@,
                done_name@ == "Done"@,
                done_alias@ == "Ready"@,
                new@ == s.subrange(0, i as int).filter(p_new),
                wip@ == s.subrange(0, i as int).filter(p_wip),
                done@ == s.subrange(0, i as int).filter(p_done),
                groups_of(other@, s.subrange(0, i as int)),
                new@.len() + wip@.len() + done@.len() + grouped_count(other@) == i,
            decreases s.len() - i,
        {
            let story = stories[i].duplicate();
            let ghost prev = s.subrange(0, i as int);
            let ghost next = s.subrange(0, i + 1);
            let ghost old_other = other@;
            proof {
                lemma_filter_step(s, i as int, p_new);
                lemma_filter_step(s, i as int, p_wip);
                lemma_filter_step(s, i as int, p_done);
                assert(next =~= prev.push(story));
            }
            let name = &story.status_extra_info.name;
            proof {
                reveal_strlit("New");
                reveal_strlit("In progress");
                reveal_strlit("WIP");
                reveal_strlit("Done");
                reveal_strlit("Ready");
                assert("New"@[0] != "WIP"@[0]);
                assert("New"@.len() != "In progress"@.len());
                assert("Done"@.len() != "Ready"@.len());
                if !is_other_name(status_name_of(story)) {
                    lemma_groups_keep(old_other, prev, story);
                }
            }
            if *name == new_name {
                new.push(story);
            } else if *name == wip_name || *name == wip_alias {
                wip.push(story);
            } else if *name == done_name || *name == done_alias {
                done.push(story);
            } else {
                let ghost key = name@;
                proof {
                    assert forall|g: int| 0 <= g < old_other.len() && old_other[g].status@ != key implies (#[trigger] old_other[g]).stories@
                        == with_name(next, old_other[g].status@) by {
                        lemma_filter_step(s, i as int, |x: UserStory| status_name_of(x) == old_other[g].status@);
                    }
                }
                match group_index(&other, name) {
                    Some(g) => {
                        let mut group = other.remove(g);
                        group.stories.push(story);
                        other.insert(g, group);
                        proof {
                            assert(other@ =~= old_other.update(g as int, other@[g as int]));
                            lemma_grouped_update(old_other, g as int, other@[g as int]);
                            lemma_filter_step(s, i as int, |x: UserStory| status_name_of(x) == key);
                            assert forall|k: int| 0 <= k < next.len() && is_other_name(
                                status_name_of(#[trigger] next[k]),
                            ) implies exists|j: int|
                                0 <= j < other@.len() && #[trigger] other@[j].status@ == status_name_of(
                                    next[k],
                                ) by {
                                if k < prev.len() {
                                    assert(next[k] == prev[k]);
                                    let j = choose|j: int|
                                        0 <= j < old_other.len() && #[trigger] old_other[j].status@
                                            == status_name_of(prev[k]);
                                    assert(other@[j].status@ == old_other[j].status@);
                                } else {
                                    assert(other@[g as int].status@ == status_name_of(next[k]));
                                }
                            }
                        }
                    },
                    None => {
                        let status = name.clone();
                        let ghost first = story;
                        other.push(StatusGroup { status, stories: vec![story] });
                        proof {
                            assert(other@.drop_last() =~= old_other);
                            let p_key = |x: UserStory| status_name_of(x) == key;
                            assert forall|k: int| 0 <= k < prev.len() implies !p_key(#[trigger] prev[k]) by {
                                if p_key(prev[k]) {
                                    assert(is_other_name(status_name_of(prev[k])));
                                    assert(next[k] == prev[k]);
                                }
                            }
                            lemma_filter_none(prev, p_key);
                            lemma_filter_step(s, i as int, p_key);
                            assert(other@.last().stories@ =~= with_name(next, key));
                            assert forall|k: int| 0 <= k < next.len() && is_other_name(
                                status_name_of(#[trigger] next[k]),
                            ) implies exists|j: int|
                                0 <= j < other@.len() && #[trigger] other@[j].status@ == status_name_of(
                                    next[k],
                                ) by {
                                if k < prev.len() {
                                    assert(next[k] == prev[k]);
                                    let j = choose|j: int|
                                        0 <= j < old_other.len() && #[trigger] old_other[j].status@
                                            == status_name_of(prev[k]);
                                    assert(other@[j].status@ == old_other[j].status@);
                                } else {
                                    assert(other@[old_other.len() as int].status@ == status_name_of(
                                        next[k],
                                    ));
                                }
                            }
                        }
                    },
                }
            }
            i = i + 1;
        }
        proof {
            assert(s.subrange(0, s.len() as int) =~= s);
        }
        UserStories { new, wip, done, other }
    }

    /// The number of stories in all buckets together.
    pub fn total_count(&self) -> (r: usize)
        requires
            total_of(*self) <= usize::MAX,
        ensures
            r == total_of(*self),
    {
        let mut sum: usize = self.new.len() + self.wip.len() + self.done.len();
        let ghost groups = self.other@;
        let mut i: usize = 0;
        proof {
            assert(groups.subrange(0, 0) =~= Seq::<StatusGroup>::empty());
        }
        while i < self.other.len()
            invariant
                groups == self.other@,
                i <= groups.len(),
                total_of(*self) <= usize::MAX,
                sum == self.new@.len() + self.wip@.len() + self.done@.len() + grouped_count(
                    groups.subrange(0, i as int),
                ),
            decreases groups.len() - i,
        {
            proof {
                assert(groups.subrange(0, i + 1).drop_last() =~= groups.subrange(0, i as int));
                lemma_grouped_prefix(groups, i + 1);
            }
            sum = sum + self.other[i].stories.len();
            i = i + 1;
        }
        proof {
            assert(groups.subrange(0, i as int) =~= groups);
        }
        sum
    }
}

} // verus!
