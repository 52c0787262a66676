//! Reaction markers: the symbols a user reacts with to pick a choice.

use vstd::prelude::*;

use crate::strings::push_char;

verus! {

/// What a reaction marker holds, as plain values.
pub ghost enum ReactionView {
    Custom { animated: bool, id: u64, name: Option<Seq<char>> },
    Unicode(Seq<char>),
}

/// A reaction marker: a custom emoji of a guild, or a Unicode emoji.
///
#[derive(Clone, Debug)]
pub enum ReactionType {
    /// A custom emoji, unique to its guild.
    Custom {
        /// Whether the emoji is animated.
        animated: bool,
        /// The id of the emoji.
        id: u64,
        /// The name of the emoji, used for display only.
        name: Option<String>,
    },
    /// A Unicode emoji, written out.
    Unicode(String),
}

pub open spec fn name_view(name: Option<String>) -> Option<Seq<char>> {
    match name {
        Some(n) => Some(n@),
        None => None,
    }
}

/// The views of the markers, in order.
pub open spec fn marker_views(emojis: Seq<ReactionType>) -> Seq<ReactionView> {
    emojis.map_values(|e: ReactionType| e@)
}

/// `i` is the first position of `e` in `markers`.
pub open spec fn first_match(markers: Seq<ReactionView>, e: ReactionView, i: int) -> bool {
    &&& 0 <= i < markers.len()
    &&& markers[i] == e
    &&& forall|j: int| 0 <= j < i ==> markers[j] != e
}

/// `e` is not among `markers`.
pub open spec fn no_match(markers: Seq<ReactionView>, e: ReactionView) -> bool {
    forall|j: int| 0 <= j < markers.len() ==> markers[j] != e
}

impl View for ReactionType {
    type V = ReactionView;

    open spec fn view(&self) -> ReactionView {
        match self {
            ReactionType::Custom { animated, id, name } => ReactionView::Custom {
                animated: *animated,
                id: *id,
                name: name_view(*name),
            },
            ReactionType::Unicode(s) => ReactionView::Unicode(s@),
        }
    }
}

impl ReactionType {
    /// The Unicode marker made of the single character `c`.
    pub fn from_char(c: char) -> (r: ReactionType)
        ensures
            r@ == ReactionView::Unicode(seq![c]),
    {
        let mut s = String::new();
        push_char(&mut s, c);
        assert(s@ =~= seq![c]);
        ReactionType::Unicode(s)
    }

    /// A marker equal to this one.
    pub fn duplicate(&self) -> (r: ReactionType)
        ensures
            r@ == self@,
    {
        match self {
            ReactionType::Custom { animated, id, name } => {
                let name = match name {
                    Some(n) => Some(n.clone()),
                    None => None,
                };
                ReactionType::Custom { animated: *animated, id: *id, name }
            },
            ReactionType::Unicode(s) => ReactionType::Unicode(s.clone()),
        }
    }
}

impl ReactionType {
    /// Whether the two markers are equal in all their parts.
    pub fn same_as(&self, other: &ReactionType) -> (r: bool)
        ensures
            r == (self@ == other@),
    {
        match self {
            ReactionType::Custom { animated: a1, id: i1, name: n1 } => match other {
                ReactionType::Custom { animated: a2, id: i2, name: n2 } => {
                    *a1 == *a2 && *i1 == *i2 && same_name(n1, n2)
                },
                ReactionType::Unicode(_) => false,
            },
            ReactionType::Unicode(s1) => match other {
                ReactionType::Unicode(s2) => *s1 == *s2,
                ReactionType::Custom { .. } => false,
            },
        }
    }
}

fn same_name(n1: &Option<String>, n2: &Option<String>) -> (r: bool)
    ensures
        r == (name_view(*n1) == name_view(*n2)),
{
    match n1 {
        Some(x) => match n2 {
            Some(y) => *x == *y,
            None => false,
        },
        None => n2.is_none(),
    }
}

impl PartialEq for ReactionType {
    fn eq(&self, other: &ReactionType) -> (r: bool) {
        self.same_as(other)
    }
}

impl vstd::std_specs::cmp::PartialEqSpecImpl for ReactionType {
    open spec fn obeys_eq_spec() -> bool {
        true
    }

    open spec fn eq_spec(&self, other: &ReactionType) -> bool {
        self@ == other@
    }
}

/// The index of the first of `emojis` equal to `e`.
pub fn position(emojis: &Vec<ReactionType>, e: &ReactionType) -> (r: Option<usize>)
    ensures
        match r {
            Some(i) => first_match(marker_views(emojis@), e@, i as int),
            None => no_match(marker_views(emojis@), e@),
        },
{
    let mut i: usize = 0;
    while i < emojis.len()
        invariant
            i <= emojis@.len(),
            forall|j: int| 0 <= j < i ==> emojis@[j]@ != e@,
        decreases emojis@.len() - i,
    {
        if emojis[i].same_as(e) {
            return Some(i);
        }
        i = i + 1;
    }
    None
}

/// Copies of `emojis`, in order.
pub fn duplicate_all(emojis: &Vec<ReactionType>) -> (r: Vec<ReactionType>)
    ensures
        marker_views(r@) == marker_views(emojis@),
{
    let mut r: Vec<ReactionType> = Vec::new();
    let mut i: usize = 0;
    while i < emojis.len()
        invariant
            i <= emojis@.len(),
            r@.len() == i,
            forall|j: int| 0 <= j < i ==> r@[j]@ == emojis@[j]@,
        decreases emojis@.len() - i,
    {
        r.push(emojis[i].duplicate());
        i = i + 1;
    }
    assert(marker_views(r@) =~= marker_views(emojis@));
    r
}

} // verus!
