use vstd::prelude::*;

use crate::error::DecodeError;
use crate::post::res_view;
use crate::thread::{spec_thread_info, ThreadInfo, ThreadInfoPre, ThreadInfoView};

verus! {

/// A board's catalog: its pages in board order.
#[derive(Debug, Clone, PartialEq)]
pub struct Catalog(pub Vec<Page>);

/// One page of a catalog.
#[derive(Debug, Clone, PartialEq)]
pub struct Page {
    /// The number of the page.
    pub page: i32,
    /// The threads on this page, in board order.
    pub threads: Vec<ThreadInfo>,
}

/// The model of a `Page`.
pub struct PageView {
    pub page: i32,
    pub threads: Seq<ThreadInfoView>,
}

impl View for Page {
    type V = PageView;

    open spec fn view(&self) -> PageView {
        PageView { page: self.page, threads: info_views(self.threads@) }
    }
}

impl View for Catalog {
    type V = Seq<PageView>;

    open spec fn view(&self) -> Seq<PageView> {
        page_views(self.0@)
    }
}

/// A raw catalog page.
#[derive(Debug, Clone, PartialEq)]
pub struct PagePre {
    pub page: i32,
    pub threads: Vec<ThreadInfoPre>,
}

/// A raw catalog body: its pages in order.
#[derive(Debug, Clone, PartialEq)]
pub struct CatalogPre(pub Vec<PagePre>);

pub open spec fn info_views(s: Seq<ThreadInfo>) -> Seq<ThreadInfoView> {
    s.map_values(|t: ThreadInfo| t@)
}

pub open spec fn page_views(s: Seq<Page>) -> Seq<PageView> {
    s.map_values(|p: Page| p@)
}

/// Normalizes each thread record in order; the first failure is the result.
pub open spec fn spec_infos(s: Seq<ThreadInfoPre>) -> Result<Seq<ThreadInfoView>, DecodeError>
    decreases s.len(),
{
    if s.len() == 0 {
        Ok(Seq::empty())
    } else {
        match spec_infos(s.drop_last()) {
            Err(e) => Err(e),
            Ok(ts) => match spec_thread_info(s.last()) {
                Err(e) => Err(e),
                Ok(t) => Ok(ts.push(t)),
            },
        }
    }
}

/// The page a raw page describes.
pub open spec fn spec_page(pre: PagePre) -> Result<PageView, DecodeError> {
    match spec_infos(pre.threads@) {
        Err(e) => Err(e),
        Ok(threads) => Ok(PageView { page: pre.page, threads }),
    }
}

/// Normalizes each page in order; the first failure is the result.
pub open spec fn spec_pages(s: Seq<PagePre>) -> Result<Seq<PageView>, DecodeError>
    decreases s.len(),
{
    if s.len() == 0 {
        Ok(Seq::empty())
    } else {
        match spec_pages(s.drop_last()) {
            Err(e) => Err(e),
            Ok(ps) => match spec_page(s.last()) {
                Err(e) => Err(e),
                Ok(p) => Ok(ps.push(p)),
            },
        }
    }
}

proof fn lemma_infos_err_prefix(s: Seq<ThreadInfoPre>, k: int)
    requires
        0 <= k <= s.len(),
        spec_infos(s.take(k)) is Err,
    ensures
        spec_infos(s) == spec_infos(s.take(k)),
    decreases s.len() - k,
{
    if k < s.len() {
        assert(s.take(k + 1).drop_last() =~= s.take(k));
        lemma_infos_err_prefix(s, k + 1);
    } else {
        assert(s.take(k) =~= s);
    }
}

proof fn lemma_pages_err_prefix(s: Seq<PagePre>, k: int)
    requires
        0 <= k <= s.len(),
        spec_pages(s.take(k)) is Err,
    ensures
        spec_pages(s) == spec_pages(s.take(k)),
    decreases s.len() - k,
{
    if k < s.len() {
        assert(s.take(k + 1).drop_last() =~= s.take(k));
        lemma_pages_err_prefix(s, k + 1);
    } else {
        assert(s.take(k) =~= s);
    }
}

fn infos_from_pre(pres: &Vec<ThreadInfoPre>) -> (r: Result<Vec<ThreadInfo>, DecodeError>)
    ensures
        match r {
            Ok(v) => spec_infos(pres@) == Ok::<Seq<ThreadInfoView>, DecodeError>(info_views(v@)),
            Err(e) => spec_infos(pres@) == Err::<Seq<ThreadInfoView>, DecodeError>(e),
        },
{
    let mut out: Vec<ThreadInfo> = Vec::new();
    let mut i: usize = 0;
    assert(pres@.take(0) =~= Seq::<ThreadInfoPre>::empty());
    assert(info_views(out@) =~= Seq::<ThreadInfoView>::empty());
    while i < pres.len()
        invariant
            i <= pres@.len(),
            spec_infos(pres@.take(i as int)) == Ok::<Seq<ThreadInfoView>, DecodeError>(
                info_views(out@),
            ),
        decreases pres@.len() - i,
    {
        assert(pres@.take(i as int + 1).drop_last() =~= pres@.take(i as int));
        assert(pres@.take(i as int + 1).last() == pres@[i as int]);
        let ghost before = out@;
        match ThreadInfo::from_pre(&pres[i]) {
            Ok(t) => {
                out.push(t);
                assert(info_views(out@) =~= info_views(before).push(t@));
            },
            Err(e) => {
                proof {
                    lemma_infos_err_prefix(pres@, i as int + 1);
                }
                return Err(e);
            },
        }
        i = i + 1;
    }
    assert(pres@.take(i as int) =~= pres@);
    Ok(out)
}

impl Page {
    /// Builds a page from its raw form, its threads in order.
    pub fn from_pre(pre: &PagePre) -> (r: Result<Page, DecodeError>)
        ensures
            res_view(r) == spec_page(*pre),
    {
        match infos_from_pre(&pre.threads) {
            Ok(threads) => Ok(Page { page: pre.page, threads }),
            Err(e) => Err(e),
        }
    }
}

impl Catalog {
    /// Builds a catalog from its raw form, its pages in order.
    pub fn from_pre(pre: &CatalogPre) -> (r: Result<Catalog, DecodeError>)
        ensures
            res_view(r) == spec_pages(pre.0@),
    {
        let pres = &pre.0;
        let mut out: Vec<Page> = Vec::new();
        let mut i: usize = 0;
        assert(pres@.take(0) =~= Seq::<PagePre>::empty());
        assert(page_views(out@) =~= Seq::<PageView>::empty());
        while i < pres.len()
            invariant
                pres == &pre.0,
                i <= pres@.len(),
                spec_pages(pres@.take(i as int)) == Ok::<Seq<PageView>, DecodeError>(
                    page_views(out@),
                ),
            decreases pres@.len() - i,
        {
            assert(pres@.take(i as int + 1).drop_last() =~= pres@.take(i as int));
            assert(pres@.take(i as int + 1).last() == pres@[i as int]);
            let ghost before = out@;
            match Page::from_pre(&pres[i]) {
                Ok(p) => {
                    out.push(p);
                    assert(page_views(out@) =~= page_views(before).push(p@));
                },
                Err(e) => {
                    proof {
                        lemma_pages_err_prefix(pres@, i as int + 1);
                    }
                    return Err(e);
                },
            }
            i = i + 1;
        }
        assert(pres@.take(i as int) =~= pres@);
        Ok(Catalog(out))
    }
}

proof fn lemma_infos_ok(s: Seq<ThreadInfoPre>)
    requires
        spec_infos(s) is Ok,
    ensures
        spec_infos(s)->Ok_0.len() == s.len(),
        forall|i: int|
            0 <= i < s.len() ==> spec_thread_info(#[trigger] s[i]) == Ok::<
                ThreadInfoView,
                DecodeError,
            >(spec_infos(s)->Ok_0[i]),
    decreases s.len(),
{
    if s.len() > 0 {
        lemma_infos_ok(s.drop_last());
        assert forall|i: int| 0 <= i < s.len() implies spec_thread_info(#[trigger] s[i]) == Ok::<
            ThreadInfoView,
            DecodeError,
        >(spec_infos(s)->Ok_0[i]) by {
            if i < s.len() - 1 {
                assert(s.drop_last()[i] == s[i]);
            }
        }
    }
}

proof fn lemma_pages_ok(s: Seq<PagePre>)
    requires
        spec_pages(s) is Ok,
    ensures
        spec_pages(s)->Ok_0.len() == s.len(),
        forall|i: int|
            0 <= i < s.len() ==> spec_page(#[trigger] s[i]) == Ok::<PageView, DecodeError>(
                spec_pages(s)->Ok_0[i],
            ),
    decreases s.len(),
{
    if s.len() > 0 {
        lemma_pages_ok(s.drop_last());
        assert forall|i: int| 0 <= i < s.len() implies spec_page(#[trigger] s[i]) == Ok::<
            PageView,
            DecodeError,
        >(spec_pages(s)->Ok_0[i]) by {
            if i < s.len() - 1 {
                assert(s.drop_last()[i] == s[i]);
            }
        }
    }
}

/// A catalog keeps its pages, and each page its threads, in the order the raw
/// body lists them: page `i` of the result is raw page `i`, and thread `j` on it
/// is built from raw thread `j` of that page.
pub proof fn lemma_catalog_order(s: Seq<PagePre>)
    requires
        spec_pages(s) is Ok,
    ensures
        ({
            let c = spec_pages(s)->Ok_0;
            &&& c.len() == s.len()
            &&& forall|i: int|
                0 <= i < s.len() ==> {
                    &&& (#[trigger] c[i]).page == s[i].page
                    &&& c[i].threads.len() == s[i].threads@.len()
                    &&& forall|j: int|
                        0 <= j < s[i].threads@.len() ==> spec_thread_info(
                            #[trigger] s[i].threads@[j],
                        ) == Ok::<ThreadInfoView, DecodeError>(c[i].threads[j])
                }
        }),
{
    lemma_pages_ok(s);
    let c = spec_pages(s)->Ok_0;
    assert forall|i: int| 0 <= i < s.len() implies {
        &&& (#[trigger] c[i]).page == s[i].page
        &&& c[i].threads.len() == s[i].threads@.len()
        &&& forall|j: int|
            0 <= j < s[i].threads@.len() ==> spec_thread_info(#[trigger] s[i].threads@[j]) == Ok::<
                ThreadInfoView,
                DecodeError,
            >(c[i].threads[j])
    } by {
        assert(spec_page(s[i]) == Ok::<PageView, DecodeError>(c[i]));
        lemma_infos_ok(s[i].threads@);
    }
}

/// Two builds of a catalog from the same raw body give equal results.
pub proof fn lemma_catalog_deterministic(
    pre: CatalogPre,
    a: Result<Catalog, DecodeError>,
    b: Result<Catalog, DecodeError>,
)
    requires
        res_view(a) == spec_pages(pre.0@),
        res_view(b) == spec_pages(pre.0@),
    ensures
        res_view(a) == res_view(b),
{
}

} // verus!
