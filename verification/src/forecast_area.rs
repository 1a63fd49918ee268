//! The forecast-area cross-reference: which AMeDAS observation sites
//! belong to each forecast region, and which office a site reports
//! under, supporting lookup in both directions.

use vstd::prelude::*;

use crate::text::str_eq;

verus! {

/// One association row: a forecast region (class10), the observation
/// sites in it, and the representative city (class20).
pub struct AmedasObservationSite {
    pub class10: String,
    pub amedas: Vec<String>,
    pub class20: String,
}

/// The mathematical value of an [`AmedasObservationSite`].
pub struct AmedasObservationSiteV {
    pub class10: Seq<char>,
    pub amedas: Seq<Seq<char>>,
    pub class20: Seq<char>,
}

impl View for AmedasObservationSite {
    type V = AmedasObservationSiteV;

    open spec fn view(&self) -> AmedasObservationSiteV {
        AmedasObservationSiteV {
            class10: self.class10@,
            amedas: self.amedas.deep_view(),
            class20: self.class20@,
        }
    }
}

impl DeepView for AmedasObservationSite {
    type V = AmedasObservationSiteV;

    open spec fn deep_view(&self) -> AmedasObservationSiteV {
        self.view()
    }
}

/// The association rows of one office.
pub struct OfficeEntry {
    pub code: String,
    pub sites: Vec<AmedasObservationSite>,
}

/// The mathematical value of an [`OfficeEntry`].
pub struct OfficeEntryV {
    pub code: Seq<char>,
    pub sites: Seq<AmedasObservationSiteV>,
}

impl View for OfficeEntry {
    type V = OfficeEntryV;

    open spec fn view(&self) -> OfficeEntryV {
        OfficeEntryV { code: self.code@, sites: self.sites.deep_view() }
    }
}

impl DeepView for OfficeEntry {
    type V = OfficeEntryV;

    open spec fn deep_view(&self) -> OfficeEntryV {
        self.view()
    }
}

/// The whole cross-reference document, keyed by office code.
pub struct ForecastArea {
    pub offices: Vec<OfficeEntry>,
}

/// The observation sites of the first row of `sites` whose region code
/// equals `code`, if any.
pub open spec fn find_site_in(sites: Seq<AmedasObservationSiteV>, code: Seq<char>) -> Option<
    Seq<Seq<char>>,
>
    decreases sites.len(),
{
    if sites.len() == 0 {
        None
    } else if sites[0].class10 == code {
        Some(sites[0].amedas)
    } else {
        find_site_in(sites.skip(1), code)
    }
}

/// The observation sites associated with a forecast region, scanning the
/// offices in table order.
pub open spec fn find_sites_by_class10(offices: Seq<OfficeEntryV>, code: Seq<char>) -> Option<
    Seq<Seq<char>>,
>
    decreases offices.len(),
{
    if offices.len() == 0 {
        None
    } else {
        match find_site_in(offices[0].sites, code) {
            Some(a) => Some(a),
            None => find_sites_by_class10(offices.skip(1), code),
        }
    }
}

/// Whether one association row lists the observation site.
pub open spec fn site_has_amedas(site: AmedasObservationSiteV, code: Seq<char>) -> bool {
    exists|k: int| 0 <= k < site.amedas.len() && site.amedas[k] == code
}

/// Whether any row of an office lists the observation site.
pub open spec fn office_has_amedas(sites: Seq<AmedasObservationSiteV>, code: Seq<char>) -> bool {
    exists|j: int| 0 <= j < sites.len() && site_has_amedas(sites[j], code)
}

/// The first office, in table order, with a row listing the observation
/// site, if any.
pub open spec fn find_office_by_amedas(offices: Seq<OfficeEntryV>, code: Seq<char>) -> Option<
    Seq<char>,
>
    decreases offices.len(),
{
    if offices.len() == 0 {
        None
    } else if office_has_amedas(offices[0].sites, code) {
        Some(offices[0].code)
    } else {
        find_office_by_amedas(offices.skip(1), code)
    }
}

proof fn lemma_find_sites_skip(offices: Seq<OfficeEntryV>, code: Seq<char>, i: int)
    requires
        0 <= i <= offices.len(),
        forall|j: int| 0 <= j < i ==> find_site_in(#[trigger] offices[j].sites, code) is None,
    ensures
        find_sites_by_class10(offices, code) == find_sites_by_class10(offices.skip(i), code),
    decreases i,
{
    if i > 0 {
        lemma_find_sites_skip(offices.skip(1), code, i - 1);
        assert(offices.skip(1).skip(i - 1) =~= offices.skip(i));
    } else {
        assert(offices.skip(0) =~= offices);
    }
}

proof fn lemma_find_site_in_skip(sites: Seq<AmedasObservationSiteV>, code: Seq<char>, i: int)
    requires
        0 <= i <= sites.len(),
        forall|j: int| 0 <= j < i ==> sites[j].class10 != code,
    ensures
        find_site_in(sites, code) == find_site_in(sites.skip(i), code),
    decreases i,
{
    if i > 0 {
        lemma_find_site_in_skip(sites.skip(1), code, i - 1);
        assert(sites.skip(1).skip(i - 1) =~= sites.skip(i));
    } else {
        assert(sites.skip(0) =~= sites);
    }
}

proof fn lemma_find_office_skip(offices: Seq<OfficeEntryV>, code: Seq<char>, i: int)
    requires
        0 <= i <= offices.len(),
        forall|j: int| 0 <= j < i ==> !office_has_amedas(#[trigger] offices[j].sites, code),
    ensures
        find_office_by_amedas(offices, code) == find_office_by_amedas(offices.skip(i), code),
    decreases i,
{
    if i > 0 {
        lemma_find_office_skip(offices.skip(1), code, i - 1);
        assert(offices.skip(1).skip(i - 1) =~= offices.skip(i));
    } else {
        assert(offices.skip(0) =~= offices);
    }
}

impl ForecastArea {
    /// The observation sites of a forecast region (class10 code): the
    /// list of the first association row that names the region.
    pub fn get_amedas_by_class10(&self, code: &str) -> (r: Option<&Vec<String>>)
        ensures
            r matches Some(v) ==> Some(v.deep_view()) == find_sites_by_class10(
                self.offices.deep_view(),
                code@,
            ),
            r is None <==> find_sites_by_class10(self.offices.deep_view(), code@) is None,
    {
        let ghost ov = self.offices.deep_view();
        let mut i: usize = 0;
        while i < self.offices.len()
            invariant
                i <= self.offices.len(),
                ov == self.offices.deep_view(),
                ov.len() == self.offices@.len(),
                forall|j: int| 0 <= j < i ==> find_site_in(#[trigger] ov[j].sites, code@) is None,
            decreases self.offices.len() - i,
        {
            let office = &self.offices[i];
            proof {
                assert(office.deep_view() == ov[i as int]);
            }
            let ghost sv = ov[i as int].sites;
            let mut j: usize = 0;
            while j < office.sites.len()
                invariant
                    j <= office.sites.len(),
                    sv == office.sites.deep_view(),
                    sv.len() == office.sites@.len(),
                    ov == self.offices.deep_view(),
                    ov.len() == self.offices@.len(),
                    i < self.offices.len(),
                    sv == ov[i as int].sites,
                    forall|o: int| 0 <= o < i ==> find_site_in(
                        #[trigger] ov[o].sites,
                        code@,
                    ) is None,
                    forall|k: int| 0 <= k < j ==> sv[k].class10 != code@,
                decreases office.sites.len() - j,
            {
                let site = &office.sites[j];
                proof {
                    assert(site.deep_view() == sv[j as int]);
                }
                if str_eq(site.class10.as_str(), code) {
                    proof {
                        lemma_find_site_in_skip(sv, code@, j as int);
                        assert(sv.skip(j as int)[0] == sv[j as int]);
                        lemma_find_sites_skip(ov, code@, i as int);
                        assert(ov.skip(i as int)[0] == ov[i as int]);
                    }
                    return Some(&site.amedas);
                }
                j += 1;
            }
            proof {
                lemma_find_site_in_skip(sv, code@, sv.len() as int);
                assert(sv.skip(sv.len() as int) =~= Seq::<AmedasObservationSiteV>::empty());
            }
            i += 1;
        }
        proof {
            lemma_find_sites_skip(ov, code@, ov.len() as int);
            assert(ov.skip(ov.len() as int) =~= Seq::<OfficeEntryV>::empty());
        }
        None
    }

    /// The office an observation site reports under: the first office, in
    /// table order, with an association row listing the site.
    pub fn get_office_by_amedas(&self, amedas_code: &str) -> (r: Option<String>)
        ensures
            r matches Some(c) ==> Some(c@) == find_office_by_amedas(
                self.offices.deep_view(),
                amedas_code@,
            ),
            r is None <==> find_office_by_amedas(self.offices.deep_view(), amedas_code@) is None,
    {
        let ghost ov = self.offices.deep_view();
        let mut i: usize = 0;
        while i < self.offices.len()
            invariant
                i <= self.offices.len(),
                ov == self.offices.deep_view(),
                ov.len() == self.offices@.len(),
                forall|j: int| 0 <= j < i ==> !office_has_amedas(#[trigger] ov[j].sites, amedas_code@),
            decreases self.offices.len() - i,
        {
            let office = &self.offices[i];
            proof {
                assert(office.deep_view() == ov[i as int]);
            }
            let ghost sv = ov[i as int].sites;
            let mut j: usize = 0;
            while j < office.sites.len()
                invariant
                    j <= office.sites.len(),
                    sv == office.sites.deep_view(),
                    sv.len() == office.sites@.len(),
                    ov == self.offices.deep_view(),
                    ov.len() == self.offices@.len(),
                    i < self.offices.len(),
                    sv == ov[i as int].sites,
                    forall|o: int| 0 <= o < i ==> !office_has_amedas(#[trigger] ov[o].sites, amedas_code@),
                    forall|k: int| 0 <= k < j ==> !site_has_amedas(#[trigger] sv[k], amedas_code@),
                decreases office.sites.len() - j,
            {
                let site = &office.sites[j];
                proof {
                    assert(site.deep_view() == sv[j as int]);
                }
                let ghost cv = sv[j as int].amedas;
                let mut k: usize = 0;
                while k < site.amedas.len()
                    invariant
                        k <= site.amedas.len(),
                        cv == site.amedas.deep_view(),
                        cv.len() == site.amedas@.len(),
                        ov == self.offices.deep_view(),
                        ov.len() == self.offices@.len(),
                        i < self.offices.len(),
                        sv == ov[i as int].sites,
                        j < sv.len(),
                        cv == sv[j as int].amedas,
                        forall|o: int| 0 <= o < i ==> !office_has_amedas(
                            #[trigger] ov[o].sites,
                            amedas_code@,
                        ),
                        forall|m: int| 0 <= m < k ==> cv[m] != amedas_code@,
                    decreases site.amedas.len() - k,
                {
                    if str_eq(site.amedas[k].as_str(), amedas_code) {
                        proof {
                            assert(site.amedas@[k as int]@ == cv[k as int]);
                            assert(site_has_amedas(sv[j as int], amedas_code@));
                            assert(office_has_amedas(sv, amedas_code@));
                            lemma_find_office_skip(ov, amedas_code@, i as int);
                            assert(ov.skip(i as int)[0] == ov[i as int]);
                        }
                        return Some(self.offices[i].code.clone());
                    }
                    k += 1;
                }
                proof {
                    assert(!site_has_amedas(sv[j as int], amedas_code@));
                }
                j += 1;
            }
            proof {
                assert(!office_has_amedas(sv, amedas_code@));
            }
            i += 1;
        }
        proof {
            lemma_find_office_skip(ov, amedas_code@, ov.len() as int);
            assert(ov.skip(ov.len() as int) =~= Seq::<OfficeEntryV>::empty());
        }
        None
    }
}

} // verus!
