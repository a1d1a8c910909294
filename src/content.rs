//! Content categories and the description of one content instance.
use vstd::prelude::*;
use crate::text::str_equals;

verus! {

/// The category of activity a lobby is formed for.
#[derive(Clone, Copy, Debug, PartialEq, Eq, Structural)]
pub enum LobbyContent {
    GuardianRaid,
    AbyssDungeon,
    AbyssRaid,
}

/// The identifier text of a category, as it appears in interaction ids and
/// in the `type` of a content description.
pub open spec fn kind_text(c: LobbyContent) -> Seq<char> {
    match c {
        LobbyContent::GuardianRaid => "guardian-raid"@,
        LobbyContent::AbyssDungeon => "abyss-dungeon"@,
        LobbyContent::AbyssRaid => "abyss-raid"@,
    }
}

/// The category whose identifier text is `s`, if any.
pub open spec fn kind_of(s: Seq<char>) -> Option<LobbyContent> {
    if s == "guardian-raid"@ {
        Some(LobbyContent::GuardianRaid)
    } else if s == "abyss-dungeon"@ {
        Some(LobbyContent::AbyssDungeon)
    } else if s == "abyss-raid"@ {
        Some(LobbyContent::AbyssRaid)
    } else {
        None
    }
}

/// The display name of a category.
pub open spec fn label_text(c: LobbyContent) -> Seq<char> {
    match c {
        LobbyContent::GuardianRaid => "Guardian Raid"@,
        LobbyContent::AbyssDungeon => "Abyss Dungeon"@,
        LobbyContent::AbyssRaid => "Abyss Raid"@,
    }
}

/// Description of one content instance (one raid or dungeon).
#[derive(Clone, Debug)]
pub struct ContentInfo {
    pub name: String,
    /// Identifier text of the category the instance belongs to.
    pub content_type: String,
    pub tier: u8,
    /// Minimum item level a character needs to take part.
    pub ilvl_req: i32,
    /// Number of roster slots.
    pub content_size: usize,
    pub image: String,
    pub banner: String,
    pub guide: String,
    pub gameplay_video: String,
    pub introduction: String,
}

/// Names of the entries of `catalog` whose category is `c`, in catalog order.
pub open spec fn names_of_kind(catalog: Seq<ContentInfo>, c: LobbyContent) -> Seq<Seq<char>>
    decreases catalog.len(),
{
    if catalog.len() == 0 {
        Seq::empty()
    } else if catalog.last().content_type@ == kind_text(c) {
        names_of_kind(catalog.drop_last(), c).push(catalog.last().name@)
    } else {
        names_of_kind(catalog.drop_last(), c)
    }
}

impl LobbyContent {
    /// The category named by `kind` (`guardian-raid`, `abyss-dungeon` or
    /// `abyss-raid`); `None` for any other text.
    pub fn from_kind(kind: &str) -> (r: Option<LobbyContent>)
        ensures
            r == kind_of(kind@),
    {
        if str_equals(kind, "guardian-raid") {
            Some(LobbyContent::GuardianRaid)
        } else if str_equals(kind, "abyss-dungeon") {
            Some(LobbyContent::AbyssDungeon)
        } else if str_equals(kind, "abyss-raid") {
            Some(LobbyContent::AbyssRaid)
        } else {
            None
        }
    }

    /// The identifier text of the category.
    pub fn kind(&self) -> (r: &'static str)
        ensures
            r@ == kind_text(*self),
    {
        match self {
            LobbyContent::GuardianRaid => "guardian-raid",
            LobbyContent::AbyssDungeon => "abyss-dungeon",
            LobbyContent::AbyssRaid => "abyss-raid",
        }
    }

    /// The display name of the category.
    pub fn label(&self) -> (r: &'static str)
        ensures
            r@ == label_text(*self),
    {
        match self {
            LobbyContent::GuardianRaid => "Guardian Raid",
            LobbyContent::AbyssDungeon => "Abyss Dungeon",
            LobbyContent::AbyssRaid => "Abyss Raid",
        }
    }

    /// Names of the instances of this category in `catalog`, in catalog order.
    pub fn get_content_list(&self, catalog: &Vec<ContentInfo>) -> (r: Vec<String>)
        ensures
            r@.map_values(|s: String| s@) == names_of_kind(catalog@, *self),
    {
        let kind = self.kind();
        let mut out: Vec<String> = Vec::new();
        let mut i: usize = 0;
        while i < catalog.len()
            invariant
                i <= catalog@.len(),
                kind@ == kind_text(*self),
                out@.map_values(|s: String| s@) == names_of_kind(catalog@.take(i as int), *self),
            decreases catalog@.len() - i,
        {
            assert(catalog@.take(i + 1).drop_last() =~= catalog@.take(i as int));
            if str_equals(catalog[i].content_type.as_str(), kind) {
                out.push(catalog[i].name.clone());
                assert(out@.map_values(|s: String| s@) =~= names_of_kind(catalog@.take(i as int), *self).push(catalog@[i as int].name@));
            }
            i = i + 1;
        }
        assert(catalog@.take(i as int) =~= catalog@);
        out
    }
}

} // verus!
