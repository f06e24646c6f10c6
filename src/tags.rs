//! The active layer tags: those set by the engine and those set from outside.
use vstd::prelude::*;
use crate::profile::{LayerTag, TagMatchType, tag_views};

verus! {

/// Whether tag `t` is among the internal or the external tags of `v`.
pub open spec fn has_tag(v: (Seq<Seq<char>>, Seq<Seq<char>>), t: Seq<char>) -> bool {
    v.0.contains(t) || v.1.contains(t)
}

/// Whether the tags `required` match the active tags `v`: never when `required` is
/// empty; otherwise all of them, or at least one, must be active.
pub open spec fn tags_match(
    v: (Seq<Seq<char>>, Seq<Seq<char>>),
    required: Seq<Seq<char>>,
    kind: TagMatchType,
) -> bool {
    required.len() > 0 && match kind {
        TagMatchType::All => forall|i: int| 0 <= i < required.len() ==> has_tag(v, required[i]),
        TagMatchType::Any => exists|i: int| 0 <= i < required.len() && has_tag(v, required[i]),
    }
}

/// `v` with the first occurrence of `t` taken out, if there is one.
pub open spec fn remove_first(v: Seq<Seq<char>>, t: Seq<char>) -> Seq<Seq<char>>
    decreases v.len(),
{
    if v.len() == 0 {
        v
    } else if v[0] == t {
        v.drop_first()
    } else {
        seq![v[0]] + remove_first(v.drop_first(), t)
    }
}

/// Two ordered lists of tags: internal ones, set by macros, and external ones, set wholesale
/// from outside. A tag may occur more than once.
pub struct TagList {
    internal: Vec<LayerTag>,
    external: Vec<LayerTag>,
}

impl View for TagList {
    type V = (Seq<Seq<char>>, Seq<Seq<char>>);

    closed spec fn view(&self) -> (Seq<Seq<char>>, Seq<Seq<char>>) {
        (tag_views(self.internal@), tag_views(self.external@))
    }
}

impl TagList {
    pub open spec fn spec_matches(&self, required: Seq<Seq<char>>, kind: TagMatchType) -> bool {
        tags_match(self@, required, kind)
    }

    pub fn new() -> (r: TagList)
        ensures
            r@.0.len() == 0,
            r@.1.len() == 0,
    {
        let r = TagList { internal: Vec::new(), external: Vec::new() };
        proof {
            assert(r@.0 =~= Seq::<Seq<char>>::empty());
            assert(r@.1 =~= Seq::<Seq<char>>::empty());
        }
        r
    }

    pub fn add_internal(&mut self, tag: LayerTag)
        ensures
            final(self)@.0 == old(self)@.0.push(tag@),
            final(self)@.1 == old(self)@.1,
    {
        self.internal.push(tag);
        proof {
            assert(self@.0 =~= old(self)@.0.push(tag@));
        }
    }

    pub fn remove_internal(&mut self, tag: LayerTag)
        ensures
            final(self)@.0 == remove_first(old(self)@.0, tag@),
            final(self)@.1 == old(self)@.1,
    {
        let mut i: usize = 0;
        while i < self.internal.len()
            invariant
                i <= self.internal@.len(),
                *self == *old(self),
                forall|j: int| 0 <= j < i ==> self.internal@[j]@ != tag@,
            decreases self.internal.len() - i,
        {
            if self.internal[i] == tag {
                let ghost before = self@.0;
                proof {
                    lemma_remove_first_at(before, tag@, i as int);
                }
                self.internal.remove(i);
                proof {
                    assert(self@.0 =~= before.remove(i as int));
                }
                return;
            }
            i = i + 1;
        }
        proof {
            lemma_remove_first_absent(self@.0, tag@);
        }
    }

    pub fn clear_internal(&mut self)
        ensures
            final(self)@.0.len() == 0,
            final(self)@.1 == old(self)@.1,
    {
        self.internal.clear();
        proof {
            assert(self@.0 =~= Seq::<Seq<char>>::empty());
        }
    }

    pub fn set_external(&mut self, tags: Vec<LayerTag>)
        ensures
            final(self)@.0 == old(self)@.0,
            final(self)@.1 == tag_views(tags@),
    {
        self.external = tags;
    }

    /// The external tags.
    pub fn external(&self) -> (r: &Vec<LayerTag>)
        ensures
            tag_views(r@) == self@.1,
    {
        &self.external
    }

    pub fn matches(&self, tags: &[LayerTag], match_type: &TagMatchType) -> (r: bool)
        ensures
            r == tags_match(self@, tag_views(tags@), *match_type),
    {
        if tags.len() == 0 {
            return false;
        }
        let mut i: usize = 0;
        while i < tags.len()
            invariant
                i <= tags@.len(),
                tags@.len() > 0,
                match *match_type {
                    TagMatchType::All => forall|j: int| 0 <= j < i ==> has_tag(self@, tags@[j]@),
                    TagMatchType::Any => forall|j: int| 0 <= j < i ==> !has_tag(self@, tags@[j]@),
                },
            decreases tags.len() - i,
        {
            let present = self.contains(&tags[i]);
            match match_type {
                TagMatchType::All => {
                    if !present {
                        proof {
                            assert(tag_views(tags@)[i as int] == tags@[i as int]@);
                        }
                        return false;
                    }
                },
                TagMatchType::Any => {
                    if present {
                        proof {
                            assert(tag_views(tags@)[i as int] == tags@[i as int]@);
                        }
                        return true;
                    }
                },
            }
            i = i + 1;
        }
        proof {
            assert(forall|j: int|
                0 <= j < tags@.len() ==> #[trigger] tag_views(tags@)[j] == tags@[j]@);
        }
        match match_type {
            TagMatchType::All => true,
            TagMatchType::Any => false,
        }
    }

    fn contains(&self, value: &LayerTag) -> (r: bool)
        ensures
            r == has_tag(self@, value@),
    {
        let mut i: usize = 0;
        while i < self.internal.len()
            invariant
                i <= self.internal@.len(),
                forall|j: int| 0 <= j < i ==> self.internal@[j]@ != value@,
            decreases self.internal.len() - i,
        {
            if self.internal[i] == *value {
                proof {
                    assert(self@.0[i as int] == value@);
                }
                return true;
            }
            i = i + 1;
        }
        let mut k: usize = 0;
        while k < self.external.len()
            invariant
                k <= self.external@.len(),
                forall|j: int| 0 <= j < k ==> self.external@[j]@ != value@,
            decreases self.external.len() - k,
        {
            if self.external[k] == *value {
                proof {
                    assert(self@.1[k as int] == value@);
                }
                return true;
            }
            k = k + 1;
        }
        false
    }
}

/// An empty list of required tags matches no tag context, whether all or any of them are
/// asked for.
pub proof fn lemma_no_required_tags_never_match(
    v: (Seq<Seq<char>>, Seq<Seq<char>>),
    kind: TagMatchType,
)
    ensures
        !tags_match(v, Seq::empty(), kind),
{
}

/// Internal tags count occurrences: a tag added twice and then removed once is still active.
pub proof fn lemma_tag_added_twice_survives_one_removal(
    v: (Seq<Seq<char>>, Seq<Seq<char>>),
    t: Seq<char>,
)
    ensures
        has_tag((remove_first(v.0.push(t).push(t), t), v.1), t),
        tags_match((remove_first(v.0.push(t).push(t), t), v.1), seq![t], TagMatchType::All),
{
    lemma_remove_first_keeps_later(v.0.push(t).push(t), t);
}

/// Taking out the first occurrence of `t` keeps the last element when `t` occurs before it.
proof fn lemma_remove_first_keeps_later(s: Seq<Seq<char>>, t: Seq<char>)
    requires
        s.len() >= 2,
        s[s.len() - 1] == t,
        s[s.len() - 2] == t,
    ensures
        remove_first(s, t).contains(t),
    decreases s.len(),
{
    if s[0] == t {
        assert(s.drop_first()[s.len() - 2] == t);
    } else {
        lemma_remove_first_keeps_later(s.drop_first(), t);
        let r = remove_first(s.drop_first(), t);
        let i = choose|i: int| 0 <= i < r.len() && r[i] == t;
        assert((seq![s[0]] + r)[i + 1] == t);
    }
}

proof fn lemma_remove_first_at(v: Seq<Seq<char>>, t: Seq<char>, i: int)
    requires
        0 <= i < v.len(),
        v[i] == t,
        forall|j: int| 0 <= j < i ==> v[j] != t,
    ensures
        remove_first(v, t) =~= v.remove(i),
    decreases i,
{
    if i > 0 {
        lemma_remove_first_at(v.drop_first(), t, i - 1);
        assert(v.remove(i) =~= seq![v[0]] + v.drop_first().remove(i - 1));
    }
}

proof fn lemma_remove_first_absent(v: Seq<Seq<char>>, t: Seq<char>)
    requires
        forall|j: int| 0 <= j < v.len() ==> v[j] != t,
    ensures
        remove_first(v, t) == v,
    decreases v.len(),
{
    if v.len() > 0 {
        lemma_remove_first_absent(v.drop_first(), t);
        assert(seq![v[0]] + v.drop_first() =~= v);
    }
}

} // verus!
