//! The administrative area hierarchy: a five-level tree (Center, Office,
//! Class10, Class15, Class20) with per-level lookup tables, parent and
//! ancestor navigation, and keyword search.

use vstd::prelude::*;

use crate::text::{is_prefix_of, lower_of, str_eq, str_starts_with, to_lowercase};

verus! {

/// The level of an administrative area, from the whole-region grouping
/// (`Center`) down to single cities (`Class20`).
#[derive(Clone, Copy, PartialEq, Eq, Structural, Debug)]
pub enum JmaAreaClass {
    Center,
    Office,
    Class10,
    Class15,
    Class20,
}

impl JmaAreaClass {
    /// Depth in the hierarchy: `Center` is 0, `Class20` is 4.
    pub open spec fn level(self) -> nat {
        match self {
            JmaAreaClass::Center => 0,
            JmaAreaClass::Office => 1,
            JmaAreaClass::Class10 => 2,
            JmaAreaClass::Class15 => 3,
            JmaAreaClass::Class20 => 4,
        }
    }

    /// The level one step up, if any.
    pub open spec fn spec_parent(self) -> Option<JmaAreaClass> {
        match self {
            JmaAreaClass::Center => None,
            JmaAreaClass::Office => Some(JmaAreaClass::Center),
            JmaAreaClass::Class10 => Some(JmaAreaClass::Office),
            JmaAreaClass::Class15 => Some(JmaAreaClass::Class10),
            JmaAreaClass::Class20 => Some(JmaAreaClass::Class15),
        }
    }

    /// The level one step down, if any.
    pub open spec fn spec_child(self) -> Option<JmaAreaClass> {
        match self {
            JmaAreaClass::Center => Some(JmaAreaClass::Office),
            JmaAreaClass::Office => Some(JmaAreaClass::Class10),
            JmaAreaClass::Class10 => Some(JmaAreaClass::Class15),
            JmaAreaClass::Class15 => Some(JmaAreaClass::Class20),
            JmaAreaClass::Class20 => None,
        }
    }

    /// The class a (case-insensitive) name denotes; both the singular and
    /// the plural forms used in the hierarchy document are accepted.
    pub open spec fn class_of_name(s: Seq<char>) -> Option<JmaAreaClass> {
        if s == "center"@ || s == "centers"@ {
            Some(JmaAreaClass::Center)
        } else if s == "office"@ || s == "offices"@ {
            Some(JmaAreaClass::Office)
        } else if s == "class10"@ || s == "class10s"@ {
            Some(JmaAreaClass::Class10)
        } else if s == "class15"@ || s == "class15s"@ {
            Some(JmaAreaClass::Class15)
        } else if s == "class20"@ || s == "class20s"@ {
            Some(JmaAreaClass::Class20)
        } else {
            None
        }
    }

    /// Convert a level name such as `"offices"` to its class.
    pub fn to_jma_area_class(class: &str) -> (r: Option<JmaAreaClass>)
        ensures
            r == Self::class_of_name(lower_of(class@)),
    {
        let cls = to_lowercase(class);
        let c = cls.as_str();
        if str_eq(c, "center") || str_eq(c, "centers") {
            Some(JmaAreaClass::Center)
        } else if str_eq(c, "office") || str_eq(c, "offices") {
            Some(JmaAreaClass::Office)
        } else if str_eq(c, "class10") || str_eq(c, "class10s") {
            Some(JmaAreaClass::Class10)
        } else if str_eq(c, "class15") || str_eq(c, "class15s") {
            Some(JmaAreaClass::Class15)
        } else if str_eq(c, "class20") || str_eq(c, "class20s") {
            Some(JmaAreaClass::Class20)
        } else {
            None
        }
    }

    /// The class one step up, if any (`Center` is the root).
    pub fn parent(&self) -> (r: Option<JmaAreaClass>)
        ensures
            r == self.spec_parent(),
    {
        match self {
            JmaAreaClass::Center => None,
            JmaAreaClass::Office => Some(JmaAreaClass::Center),
            JmaAreaClass::Class10 => Some(JmaAreaClass::Office),
            JmaAreaClass::Class15 => Some(JmaAreaClass::Class10),
            JmaAreaClass::Class20 => Some(JmaAreaClass::Class15),
        }
    }

    /// The class one step down, if any (`Class20` is the leaf level).
    pub fn child(&self) -> (r: Option<JmaAreaClass>)
        ensures
            r == self.spec_child(),
    {
        match self {
            JmaAreaClass::Center => Some(JmaAreaClass::Office),
            JmaAreaClass::Office => Some(JmaAreaClass::Class10),
            JmaAreaClass::Class10 => Some(JmaAreaClass::Class15),
            JmaAreaClass::Class15 => Some(JmaAreaClass::Class20),
            JmaAreaClass::Class20 => None,
        }
    }
}

/// One record of the hierarchy document, as stored in a per-level table.
pub struct RawArea {
    pub name: String,
    pub en_name: String,
    pub kana: Option<String>,
    pub parent: Option<String>,
    pub office_name: Option<String>,
    pub children: Option<Vec<String>>,
}

/// The mathematical value of a [`RawArea`].
pub struct RawAreaV {
    pub name: Seq<char>,
    pub en_name: Seq<char>,
    pub kana: Option<Seq<char>>,
    pub parent: Option<Seq<char>>,
    pub office_name: Option<Seq<char>>,
    pub children: Option<Seq<Seq<char>>>,
}

impl View for RawArea {
    type V = RawAreaV;

    open spec fn view(&self) -> RawAreaV {
        RawAreaV {
            name: self.name@,
            en_name: self.en_name@,
            kana: self.kana.deep_view(),
            parent: self.parent.deep_view(),
            office_name: self.office_name.deep_view(),
            children: self.children.deep_view(),
        }
    }
}

impl DeepView for RawArea {
    type V = RawAreaV;

    open spec fn deep_view(&self) -> RawAreaV {
        self.view()
    }
}

fn clone_string_vec(v: &Vec<String>) -> (r: Vec<String>)
    ensures
        r.deep_view() == v.deep_view(),
{
    let mut r: Vec<String> = Vec::new();
    let mut i: usize = 0;
    while i < v.len()
        invariant
            i <= v.len(),
            r@.len() == i,
            forall|j: int| 0 <= j < i ==> r@[j]@ == v@[j]@,
        decreases v.len() - i,
    {
        r.push(v[i].clone());
        i += 1;
    }
    proof {
        assert(r.deep_view() =~= v.deep_view());
    }
    r
}

fn clone_opt_string(v: &Option<String>) -> (r: Option<String>)
    ensures
        r == *v,
{
    match v {
        Some(s) => Some(s.clone()),
        None => None,
    }
}

impl Clone for RawArea {
    fn clone(&self) -> (r: Self)
        ensures
            r@ == self@,
    {
        RawArea {
            name: self.name.clone(),
            en_name: self.en_name.clone(),
            kana: clone_opt_string(&self.kana),
            parent: clone_opt_string(&self.parent),
            office_name: clone_opt_string(&self.office_name),
            children: match &self.children {
                Some(c) => Some(clone_string_vec(c)),
                None => None,
            },
        }
    }
}

/// A record joined with the level it came from and its own code; the
/// identity of a record is the pair (class, code).
pub struct Area {
    pub area: RawArea,
    pub class: JmaAreaClass,
    pub code: String,
}

/// The mathematical value of an [`Area`].
pub struct AreaV {
    pub area: RawAreaV,
    pub class: JmaAreaClass,
    pub code: Seq<char>,
}

impl View for Area {
    type V = AreaV;

    open spec fn view(&self) -> AreaV {
        AreaV { area: self.area@, class: self.class, code: self.code@ }
    }
}

impl DeepView for Area {
    type V = AreaV;

    open spec fn deep_view(&self) -> AreaV {
        self.view()
    }
}

impl Clone for Area {
    fn clone(&self) -> (r: Self)
        ensures
            r@ == self@,
    {
        Area { area: self.area.clone(), class: self.class, code: self.code.clone() }
    }
}

impl Area {
    /// Tag a raw record with its level and code.
    pub fn new(class: &JmaAreaClass, code: &str, raw: &RawArea) -> (r: Self)
        ensures
            r@ == (AreaV { area: raw@, class: *class, code: code@ }),
    {
        Area { area: raw.clone(), class: *class, code: code.to_owned() }
    }
}

/// One keyed row of a per-level table.
pub struct AreaEntry {
    pub code: String,
    pub area: RawArea,
}

/// The mathematical value of an [`AreaEntry`].
pub struct AreaEntryV {
    pub code: Seq<char>,
    pub area: RawAreaV,
}

impl View for AreaEntry {
    type V = AreaEntryV;

    open spec fn view(&self) -> AreaEntryV {
        AreaEntryV { code: self.code@, area: self.area@ }
    }
}

impl DeepView for AreaEntry {
    type V = AreaEntryV;

    open spec fn deep_view(&self) -> AreaEntryV {
        self.view()
    }
}

/// The whole hierarchy document: one table of records per level.
pub struct Areas {
    centers: Vec<AreaEntry>,
    offices: Vec<AreaEntry>,
    class10s: Vec<AreaEntry>,
    class15s: Vec<AreaEntry>,
    class20s: Vec<AreaEntry>,
}

/// The mathematical value of [`Areas`]: the five tables, in level order.
pub struct AreasV {
    pub centers: Seq<AreaEntryV>,
    pub offices: Seq<AreaEntryV>,
    pub class10s: Seq<AreaEntryV>,
    pub class15s: Seq<AreaEntryV>,
    pub class20s: Seq<AreaEntryV>,
}

impl View for Areas {
    type V = AreasV;

    closed spec fn view(&self) -> AreasV {
        AreasV {
            centers: self.centers.deep_view(),
            offices: self.offices.deep_view(),
            class10s: self.class10s.deep_view(),
            class15s: self.class15s.deep_view(),
            class20s: self.class20s.deep_view(),
        }
    }
}

impl AreasV {
    /// The table holding the records of one level.
    pub open spec fn table(self, class: JmaAreaClass) -> Seq<AreaEntryV> {
        match class {
            JmaAreaClass::Center => self.centers,
            JmaAreaClass::Office => self.offices,
            JmaAreaClass::Class10 => self.class10s,
            JmaAreaClass::Class15 => self.class15s,
            JmaAreaClass::Class20 => self.class20s,
        }
    }
}

/// The first record of `t` stored under `code`, if any.
pub open spec fn lookup_in(t: Seq<AreaEntryV>, code: Seq<char>) -> Option<RawAreaV>
    decreases t.len(),
{
    if t.len() == 0 {
        None
    } else if t[0].code == code {
        Some(t[0].area)
    } else {
        lookup_in(t.skip(1), code)
    }
}

/// Point lookup scoped to one level, as a tagged [`AreaV`].
pub open spec fn lookup_area(av: AreasV, class: JmaAreaClass, code: Seq<char>) -> Option<AreaV> {
    match lookup_in(av.table(class), code) {
        None => None,
        Some(raw) => Some(AreaV { area: raw, class: class, code: code }),
    }
}

/// A scan that has passed `i` rows of `t` without a code match has not
/// changed what remains to be found.
proof fn lemma_lookup_skip(t: Seq<AreaEntryV>, code: Seq<char>, i: int)
    requires
        0 <= i <= t.len(),
        forall|j: int| 0 <= j < i ==> t[j].code != code,
    ensures
        lookup_in(t, code) == lookup_in(t.skip(i), code),
    decreases i,
{
    if i > 0 {
        lemma_lookup_skip(t.skip(1), code, i - 1);
        assert(t.skip(1).skip(i - 1) =~= t.skip(i));
    } else {
        assert(t.skip(0) =~= t);
    }
}

/// What one row contributes to a keyword search: one copy of the record
/// per criterion it meets, in the fixed order code, localized name,
/// English name. A row matching several criteria appears several times.
pub open spec fn entry_hits(e: AreaEntryV, class: JmaAreaClass, kw: Seq<char>) -> Seq<AreaV> {
    let a = AreaV { area: e.area, class: class, code: e.code };
    (if e.code == kw {
        seq![a]
    } else {
        Seq::<AreaV>::empty()
    }) + (if is_prefix_of(lower_of(kw), e.area.name) {
        seq![a]
    } else {
        Seq::<AreaV>::empty()
    }) + (if is_prefix_of(lower_of(kw), lower_of(e.area.en_name)) {
        seq![a]
    } else {
        Seq::<AreaV>::empty()
    })
}

/// The search hits of one level's table, in row order.
pub open spec fn search_table(t: Seq<AreaEntryV>, class: JmaAreaClass, kw: Seq<char>) -> Seq<
    AreaV,
>
    decreases t.len(),
{
    if t.len() == 0 {
        Seq::empty()
    } else {
        entry_hits(t[0], class, kw) + search_table(t.skip(1), class, kw)
    }
}

/// The search hits of a whole hierarchy: levels scanned in the fixed
/// order Center, Office, Class10, Class15, Class20.
pub open spec fn search_spec(av: AreasV, kw: Seq<char>) -> Seq<AreaV> {
    search_table(av.centers, JmaAreaClass::Center, kw) + search_table(
        av.offices,
        JmaAreaClass::Office,
        kw,
    ) + search_table(av.class10s, JmaAreaClass::Class10, kw) + search_table(
        av.class15s,
        JmaAreaClass::Class15,
        kw,
    ) + search_table(av.class20s, JmaAreaClass::Class20, kw)
}

proof fn lemma_search_table_concat(
    a: Seq<AreaEntryV>,
    b: Seq<AreaEntryV>,
    class: JmaAreaClass,
    kw: Seq<char>,
)
    ensures
        search_table(a + b, class, kw) == search_table(a, class, kw) + search_table(b, class, kw),
    decreases a.len(),
{
    if a.len() == 0 {
        assert(a + b =~= b);
        assert(search_table(a, class, kw) + search_table(b, class, kw) =~= search_table(
            b,
            class,
            kw,
        ));
    } else {
        lemma_search_table_concat(a.skip(1), b, class, kw);
        assert((a + b).skip(1) =~= a.skip(1) + b);
        assert((a + b)[0] == a[0]);
        assert(entry_hits(a[0], class, kw) + (search_table(a.skip(1), class, kw) + search_table(
            b,
            class,
            kw,
        )) =~= (entry_hits(a[0], class, kw) + search_table(a.skip(1), class, kw)) + search_table(
            b,
            class,
            kw,
        ));
    }
}

impl Areas {
    /// Assemble a hierarchy snapshot from its five per-level tables.
    pub fn new(
        centers: Vec<AreaEntry>,
        offices: Vec<AreaEntry>,
        class10s: Vec<AreaEntry>,
        class15s: Vec<AreaEntry>,
        class20s: Vec<AreaEntry>,
    ) -> (r: Areas)
        ensures
            r@ == (AreasV {
                centers: centers.deep_view(),
                offices: offices.deep_view(),
                class10s: class10s.deep_view(),
                class15s: class15s.deep_view(),
                class20s: class20s.deep_view(),
            }),
    {
        Areas { centers, offices, class10s, class15s, class20s }
    }

    /// The table of records of one level.
    pub fn areas(&self, class: &JmaAreaClass) -> (r: &Vec<AreaEntry>)
        ensures
            r.deep_view() == self@.table(*class),
    {
        match class {
            JmaAreaClass::Center => &self.centers,
            JmaAreaClass::Office => &self.offices,
            JmaAreaClass::Class10 => &self.class10s,
            JmaAreaClass::Class15 => &self.class15s,
            JmaAreaClass::Class20 => &self.class20s,
        }
    }

    /// Exact key lookup scoped to one level. A returned record carries the
    /// class and the code it was looked up under.
    pub fn values(&self, class: &JmaAreaClass, code: &str) -> (r: Option<Area>)
        ensures
            r matches Some(a) ==> Some(a@) == lookup_area(self@, *class, code@),
            r is None <==> lookup_area(self@, *class, code@) is None,
            r matches Some(a) ==> (a@.code == code@ && a@.class == *class),
    {
        let t = self.areas(class);
        let ghost tv = t.deep_view();
        let mut i: usize = 0;
        while i < t.len()
            invariant
                i <= t.len(),
                tv == t.deep_view(),
                tv == self@.table(*class),
                tv.len() == t@.len(),
                forall|j: int| 0 <= j < i ==> tv[j].code != code@,
            decreases t.len() - i,
    {
            let entry = &t[i];
            proof {
                assert(entry@ == tv[i as int]);
            }
            if str_eq(entry.code.as_str(), code) {
                proof {
                    lemma_lookup_skip(tv, code@, i as int);
                    assert(tv.skip(i as int)[0] == tv[i as int]);
                }
                return Some(Area::new(class, code, &entry.area));
            }
            i += 1;
        }
        proof {
            lemma_lookup_skip(tv, code@, tv.len() as int);
        }
        None
    }

    /// Append to `result` the hits of one level's table.
    fn search_into(
        &self,
        class: JmaAreaClass,
        keyword: &str,
        kw_lower: &str,
        result: &mut Vec<Area>,
    )
        requires
            kw_lower@ == lower_of(keyword@),
        ensures
            final(result).deep_view() == old(result).deep_view() + search_table(
                self@.table(class),
                class,
                keyword@,
            ),
    {
        let t = self.areas(&class);
        let ghost tv = t.deep_view();
        let ghost base = result.deep_view();
        let mut i: usize = 0;
        while i < t.len()
            invariant
                i <= t.len(),
                tv == self@.table(class),
                tv == t.deep_view(),
                tv.len() == t@.len(),
                kw_lower@ == lower_of(keyword@),
                result.deep_view() =~= base + search_table(
                    tv.subrange(0, i as int),
                    class,
                    keyword@,
                ),
            decreases t.len() - i,
        {
            let entry = &t[i];
            proof {
                assert(entry@ == tv[i as int]);
            }
            let ghost av = AreaV {
                area: tv[i as int].area,
                class: class,
                code: tv[i as int].code,
            };
            let ghost d0 = result.deep_view();
            if str_eq(entry.code.as_str(), keyword) {
                result.push(Area::new(&class, entry.code.as_str(), &entry.area));
            }
            proof {
                assert(result.deep_view() =~= d0 + (if tv[i as int].code == keyword@ {
                    seq![av]
                } else {
                    Seq::<AreaV>::empty()
                }));
            }
            let ghost d1 = result.deep_view();
            if str_starts_with(entry.area.name.as_str(), kw_lower) {
                result.push(Area::new(&class, entry.code.as_str(), &entry.area));
            }
            proof {
                assert(result.deep_view() =~= d1 + (if is_prefix_of(
                    lower_of(keyword@),
                    tv[i as int].area.name,
                ) {
                    seq![av]
                } else {
                    Seq::<AreaV>::empty()
                }));
            }
            let ghost d2 = result.deep_view();
            let en_lower = to_lowercase(entry.area.en_name.as_str());
            if str_starts_with(en_lower.as_str(), kw_lower) {
                result.push(Area::new(&class, entry.code.as_str(), &entry.area));
            }
            proof {
                assert(result.deep_view() =~= d2 + (if is_prefix_of(
                    lower_of(keyword@),
                    lower_of(tv[i as int].area.en_name),
                ) {
                    seq![av]
                } else {
                    Seq::<AreaV>::empty()
                }));
                assert(result.deep_view() =~= d0 + entry_hits(tv[i as int], class, keyword@));
                let pre = tv.subrange(0, i as int);
                assert(tv.subrange(0, i + 1 as int) =~= pre + seq![tv[i as int]]);
                lemma_search_table_concat(pre, seq![tv[i as int]], class, keyword@);
                assert(seq![tv[i as int]].skip(1) =~= Seq::<AreaEntryV>::empty());
                assert(seq![tv[i as int]][0] == tv[i as int]);
                assert(search_table(Seq::<AreaEntryV>::empty(), class, keyword@)
                    == Seq::<AreaV>::empty());
                assert(entry_hits(tv[i as int], class, keyword@) + Seq::<AreaV>::empty()
                    =~= entry_hits(tv[i as int], class, keyword@));
                assert(search_table(seq![tv[i as int]], class, keyword@) =~= entry_hits(
                    tv[i as int],
                    class,
                    keyword@,
                ));
                assert(result.deep_view() =~= base + search_table(
                    tv.subrange(0, i + 1 as int),
                    class,
                    keyword@,
                ));
            }
            i += 1;
        }
        proof {
            assert(tv.subrange(0, tv.len() as int) =~= tv);
        }
    }

    /// Case-insensitive keyword search over all five levels, in the fixed
    /// order Center, Office, Class10, Class15, Class20. A row is a hit when
    /// its code equals the keyword verbatim, when its localized name starts
    /// with the lower-cased keyword, or when its lower-cased English name
    /// starts with the lower-cased keyword; it appears once per criterion
    /// met. No match is an empty result, not an error.
    pub fn search(&self, keyword: &str) -> (r: Vec<Area>)
        ensures
            r.deep_view() == search_spec(self@, keyword@),
    {
        let kw_lower = to_lowercase(keyword);
        let mut result: Vec<Area> = Vec::new();
        self.search_into(JmaAreaClass::Center, keyword, kw_lower.as_str(), &mut result);
        self.search_into(JmaAreaClass::Office, keyword, kw_lower.as_str(), &mut result);
        self.search_into(JmaAreaClass::Class10, keyword, kw_lower.as_str(), &mut result);
        self.search_into(JmaAreaClass::Class15, keyword, kw_lower.as_str(), &mut result);
        self.search_into(JmaAreaClass::Class20, keyword, kw_lower.as_str(), &mut result);
        proof {
            assert(result.deep_view() =~= search_spec(self@, keyword@));
        }
        result
    }

    /// Keyword search restricted to the city level (Class20), with the same
    /// per-row criteria as [`Areas::search`].
    pub fn search_class20s(&self, keyword: &str) -> (r: Vec<Area>)
        ensures
            r.deep_view() == search_table(self@.class20s, JmaAreaClass::Class20, keyword@),
    {
        let kw_lower = to_lowercase(keyword);
        let mut result: Vec<Area> = Vec::new();
        self.search_into(JmaAreaClass::Class20, keyword, kw_lower.as_str(), &mut result);
        proof {
            assert(result.deep_view() =~= search_table(
                self@.class20s,
                JmaAreaClass::Class20,
                keyword@,
            ));
        }
        result
    }

    /// The record one level up, if the record carries a parent code and is
    /// not at the root level.
    pub fn parent(&self, area: &Area) -> (r: Option<Area>)
        ensures
            r matches Some(a) ==> Some(a@) == parent_spec(self@, area@),
            r is None <==> parent_spec(self@, area@) is None,
    {
        let parent_code = match &area.area.parent {
            Some(code) => code,
            None => {
                return None;
            },
        };
        match area.class.parent() {
            Some(class) => self.values(&class, parent_code.as_str()),
            None => None,
        }
    }

    /// Walk parent links until a record of the requested class is reached.
    /// A record already at that class is returned unchanged; the walk stops
    /// with no result when it runs out of parents. Each step strictly
    /// climbs the hierarchy, so the walk always terminates.
    pub fn ancestor(&self, area: &Area, class: &JmaAreaClass) -> (r: Option<Area>)
        ensures
            r matches Some(a) ==> Some(a@) == ancestor_spec(self@, area@, *class),
            r is None <==> ancestor_spec(self@, area@, *class) is None,
            r matches Some(a) ==> a@.class == *class,
            area@.class == *class ==> (r matches Some(a) && a@ == area@),
    {
        proof {
            lemma_ancestor_class(self@, area@, *class);
        }
        let mut p = area.clone();
        loop
            invariant
                ancestor_spec(self@, p@, *class) == ancestor_spec(self@, area@, *class),
            decreases p@.class.level(),
        {
            if p.class == *class {
                return Some(p);
            }
            p = match self.parent(&p) {
                Some(parent) => parent,
                None => {
                    return None;
                },
            };
        }
    }
}

/// The record one level up from `a`: its parent code resolved in the table
/// one level above, absent when `a` is root-level or carries no parent code.
pub open spec fn parent_spec(av: AreasV, a: AreaV) -> Option<AreaV> {
    match a.area.parent {
        None => None,
        Some(pcode) => match a.class.spec_parent() {
            None => None,
            Some(pclass) => lookup_area(av, pclass, pcode),
        },
    }
}

/// The ancestor of `a` at `target`: `a` itself when already at that class,
/// else the walk continues from the parent record. A found parent always
/// sits exactly one level up (see [`lemma_parent_level`]), so the level
/// guard below always holds of it; it makes the strict climb, and with it
/// termination, explicit.
pub open spec fn ancestor_spec(av: AreasV, a: AreaV, target: JmaAreaClass) -> Option<AreaV>
    decreases a.class.level(),
{
    if a.class == target {
        Some(a)
    } else {
        match parent_spec(av, a) {
            None => None,
            Some(p) => if p.class.level() < a.class.level() {
                ancestor_spec(av, p, target)
            } else {
                None
            },
        }
    }
}

/// A parent record, when found, sits exactly one level above its child.
pub proof fn lemma_parent_level(av: AreasV, a: AreaV)
    ensures
        parent_spec(av, a) matches Some(p) ==> Some(p.class) == a.class.spec_parent()
            && p.class.level() + 1 == a.class.level(),
{
}

/// An ancestor walk that finds a record finds one of exactly the requested
/// class, never one at another level.
pub proof fn lemma_ancestor_class(av: AreasV, a: AreaV, target: JmaAreaClass)
    ensures
        ancestor_spec(av, a, target) matches Some(x) ==> x.class == target,
    decreases a.class.level(),
{
    if a.class != target {
        match parent_spec(av, a) {
            None => {},
            Some(p) => {
                lemma_parent_level(av, a);
                if p.class.level() < a.class.level() {
                    lemma_ancestor_class(av, p, target);
                }
            },
        }
    }
}

/// An ancestor walk that starts at the requested class returns the record
/// itself, with no traversal.
pub proof fn lemma_ancestor_self(av: AreasV, a: AreaV)
    ensures
        ancestor_spec(av, a, a.class) == Some(a),
{
}

} // verus!
