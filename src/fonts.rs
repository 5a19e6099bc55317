//! The font catalog's own bookkeeping: which added faces a new one
//! replaces, and the key under which a resolved collection is cached.
use vstd::prelude::*;
use crate::keywords::{FontWidth, Slant};
use crate::strings::str_eq;

verus! {

/// The style a face declares.
#[derive(Clone, Copy, Debug, PartialEq, Eq, Structural)]
pub struct FaceStyle {
    pub weight: i32,
    pub width: FontWidth,
    pub slant: Slant,
}

/// A face added at run time, with its family name, the alias it was added
/// under (if any) and its style. `face` is the engine's typeface.
pub struct FontEntry<T> {
    pub face: T,
    pub family: String,
    pub alias: Option<String>,
    pub style: FaceStyle,
}

/// A new face takes the place of an added one of the same style that has
/// the same alias, or, when the new face has no alias, the same family.
pub open spec fn replaces<T>(new: FontEntry<T>, old: FontEntry<T>) -> bool {
    &&& match new.alias {
        Some(a) => old.alias matches Some(b) && b@ == a@,
        None => old.family@ == new.family@,
    }
    &&& old.style == new.style
}

/// The faces added at run time, oldest first.
pub struct FontRegistry<T> {
    pub fonts: Vec<FontEntry<T>>,
}

fn same_alias(new: &Option<String>, old: &Option<String>) -> (r: bool)
    requires
        new is Some,
    ensures
        r == (old matches Some(b) && b@ == new->Some_0@),
{
    match (new, old) {
        (Some(a), Some(b)) => str_eq(a.as_str(), b.as_str()),
        _ => false,
    }
}

impl<T> FontRegistry<T> {
    /// A catalog with no added faces.
    pub fn new() -> (r: Self)
        ensures
            r.fonts@ == Seq::<FontEntry<T>>::empty(),
    {
        FontRegistry { fonts: Vec::new() }
    }

    /// Whether `entry` replaces the added face at `i`.
    fn replaces_at(&self, entry: &FontEntry<T>, i: usize) -> (r: bool)
        requires
            i < self.fonts@.len(),
        ensures
            r == replaces(*entry, self.fonts@[i as int]),
    {
        let old = &self.fonts[i];
        let same_name = match &entry.alias {
            Some(_) => same_alias(&entry.alias, &old.alias),
            None => old.family == entry.family,
        };
        same_name && old.style == entry.style
    }

    /// Adds a face at the end, after removing the first added face it
    /// replaces.
    pub fn add_typeface(&mut self, entry: FontEntry<T>)
        ensures
            (forall|i: int| 0 <= i < old(self).fonts@.len() ==> !replaces(entry, #[trigger] old(self).fonts@[i]))
                ==> final(self).fonts@ == old(self).fonts@.push(entry),
            forall|i: int|
                0 <= i < old(self).fonts@.len() && replaces(entry, #[trigger] old(self).fonts@[i])
                    && (forall|j: int| 0 <= j < i ==> !replaces(entry, #[trigger] old(self).fonts@[j]))
                    ==> final(self).fonts@ == old(self).fonts@.remove(i).push(entry),
    {
        let n = self.fonts.len();
        let mut i: usize = 0;
        while i < n
            invariant
                n == self.fonts@.len(),
                self.fonts@ == old(self).fonts@,
                i <= n,
                forall|j: int| 0 <= j < i ==> !replaces(entry, #[trigger] self.fonts@[j]),
            decreases n - i,
        {
            if self.replaces_at(&entry, i) {
                self.fonts.remove(i);
                self.fonts.push(entry);
                return;
            }
            i = i + 1;
        }
        self.fonts.push(entry);
    }

    /// Forgets every added face.
    pub fn reset(&mut self)
        ensures
            final(self).fonts@ == Seq::<FontEntry<T>>::empty(),
    {
        self.fonts = Vec::new();
    }
}

/// Family names joined with `", "`.
pub open spec fn joined(names: Seq<Seq<char>>) -> Seq<char>
    decreases names.len(),
{
    if names.len() == 0 {
        Seq::empty()
    } else if names.len() == 1 {
        names[0]
    } else {
        joined(names.drop_last()) + ", "@ + names.last()
    }
}

/// What a resolved font collection is cached under: the requested families,
/// joined, with the weight and slant asked for.
#[derive(Debug, PartialEq, Eq, Hash)]
pub struct CollectionKey {
    pub families: String,
    pub weight: i32,
    pub slant: Slant,
}

impl CollectionKey {
    /// The key of a text style's font request.
    pub fn new(families: &Vec<String>, weight: i32, slant: Slant) -> (r: Self)
        ensures
            r.families@ == joined(families@.map_values(|f: String| f@)),
            r.weight == weight,
            r.slant == slant,
    {
        let mut s = String::new();
        let mut i: usize = 0;
        while i < families.len()
            invariant
                i <= families@.len(),
                s@ == joined(families@.subrange(0, i as int).map_values(|f: String| f@)),
            decreases families@.len() - i,
        {
            let ghost before = families@.subrange(0, i as int).map_values(|f: String| f@);
            if i > 0 {
                s.append(", ");
            }
            s.append(families[i].as_str());
            let ghost after = families@.subrange(0, i + 1).map_values(|f: String| f@);
            assert(after.drop_last() =~= before);
            i = i + 1;
        }
        assert(families@.subrange(0, families@.len() as int) =~= families@);
        CollectionKey { families: s, weight, slant }
    }
}

} // verus!
