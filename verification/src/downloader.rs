use vstd::prelude::*;
use vstd::string::StringExecFns;

use crate::api::{
    spec_to_chapter_info, ChapterContent, ChapterContentResponse, ChapterInfo, ChapterInfoRaw,
    ChapterListData, ChapterListResponse, DirectoryResponse,
};
use crate::error::{spec_message, FanqieError};
use crate::strutil::{spec_idigits, i64_to_string, str_eq};

verus! {

/// What one download run is asked to do: which book, where to put it, in
/// which format, and an optional one-based chapter range.
#[derive(Debug, Clone)]
pub struct DownloadOptions {
    pub book_id: String,
    pub save_path: String,
    pub format: String,
    pub start_chapter: Option<usize>,
    pub end_chapter: Option<usize>,
}

/// Progress of one download run, as events for an external sink: the run
/// started, one chapter finished or failed, the run completed.
#[derive(Debug, Clone, PartialEq, Eq)]
pub enum DownloadProgress {
    Started { total: usize },
    Chapter { current: usize, total: usize, title: String },
    Completed { output_path: String },
    Error { message: String },
}

/// One book-download run over its options.
pub struct Downloader {
    pub options: DownloadOptions,
}

impl Downloader {
    pub fn new(options: DownloadOptions) -> (r: Self)
        ensures
            r.options == options,
    {
        Downloader { options }
    }
}

// ---------------------------------------------------------------------------
// Chapter-list selection
//
// A chapter list can arrive in three shapes: the directory endpoint's flat
// list, a volume-grouped list, or a flat list nested one level deeper.
// They are tried in that fixed precedence order and the first one present
// wins.
// ---------------------------------------------------------------------------

/// The chapters a directory response carries: present exactly when the
/// response succeeded and both payload levels are there.
pub fn chapters_from_directory(resp: DirectoryResponse) -> (r: Option<Vec<ChapterInfo>>)
    ensures
        ({
            match resp.data {
                Some(d) => {
                    &&& (r is Some <==> resp.code == 200 && d.lists is Some)
                    &&& (resp.code == 200 ==> (d.lists matches Some(lists) ==> r == Some(lists)))
                },
                None => r is None,
            }
        }),
{
    if resp.code == 200 {
        match resp.data {
            Some(d) => d.lists,
            None => None,
        }
    } else {
        None
    }
}

/// The chapters of one volume, in order.
pub open spec fn spec_volume_chapters(v: Seq<ChapterInfoRaw>) -> Seq<ChapterInfo>
    decreases v.len(),
{
    if v.len() == 0 {
        Seq::empty()
    } else {
        spec_volume_chapters(v.drop_last()).push(spec_to_chapter_info(v.last()))
    }
}

/// All chapters of a volume-grouped listing, volumes in order and each
/// volume's chapters in order.
pub open spec fn spec_flatten_volumes(vols: Seq<Vec<ChapterInfoRaw>>) -> Seq<ChapterInfo>
    decreases vols.len(),
{
    if vols.len() == 0 {
        Seq::empty()
    } else {
        spec_flatten_volumes(vols.drop_last()) + spec_volume_chapters(vols.last()@)
    }
}

/// The inner payload of a chapter-list response, behind its double wrap.
pub open spec fn spec_list_payload(resp: ChapterListResponse) -> Option<ChapterListData> {
    match resp.data {
        Some(w) => w.data,
        None => None,
    }
}

/// A payload's volume-grouped listing counts only when it flattens to at
/// least one chapter.
pub open spec fn spec_has_volume_chapters(d: ChapterListData) -> bool {
    d.chapter_list_with_volume matches Some(v) && spec_flatten_volumes(v@).len() > 0
}

/// Turns one volume-grouped listing into the flat chapter list it stands
/// for.
fn flatten_volumes(vols: &Vec<Vec<ChapterInfoRaw>>) -> (r: Vec<ChapterInfo>)
    ensures
        r@ == spec_flatten_volumes(vols@),
{
    let mut out: Vec<ChapterInfo> = Vec::new();
    let mut i: usize = 0;
    proof {
        assert(vols@.subrange(0, 0) =~= Seq::<Vec<ChapterInfoRaw>>::empty());
    }
    while i < vols.len()
        invariant
            i <= vols@.len(),
            out@ == spec_flatten_volumes(vols@.subrange(0, i as int)),
        decreases vols@.len() - i,
    {
        let v = &vols[i];
        let mut j: usize = 0;
        proof {
            assert(v@.subrange(0, 0) =~= Seq::<ChapterInfoRaw>::empty());
            assert(out@ + spec_volume_chapters(v@.subrange(0, 0)) =~= out@);
        }
        let ghost base = out@;
        while j < v.len()
            invariant
                j <= v@.len(),
                out@ == base + spec_volume_chapters(v@.subrange(0, j as int)),
            decreases v@.len() - j,
        {
            out.push(v[j].to_chapter_info());
            proof {
                let longer = v@.subrange(0, j as int + 1);
                assert(longer.drop_last() =~= v@.subrange(0, j as int));
                assert(longer.last() == v@[j as int]);
                assert(base + spec_volume_chapters(v@.subrange(0, j as int)).push(
                    spec_to_chapter_info(v@[j as int]),
                ) =~= (base + spec_volume_chapters(v@.subrange(0, j as int))).push(
                    spec_to_chapter_info(v@[j as int]),
                ));
            }
            j = j + 1;
        }
        proof {
            assert(v@.subrange(0, v@.len() as int) =~= v@);
            let longer = vols@.subrange(0, i as int + 1);
            assert(longer.drop_last() =~= vols@.subrange(0, i as int));
            assert(longer.last() == vols@[i as int]);
        }
        i = i + 1;
    }
    proof {
        assert(vols@.subrange(0, vols@.len() as int) =~= vols@);
    }
    out
}

/// The chapters a chapter-list response carries, in the fixed precedence
/// order: a non-success code is an error carrying that code; a non-empty
/// volume-grouped listing wins; else the flat nested list; else the list
/// is reported empty.
pub fn chapters_from_list(resp: ChapterListResponse) -> (r: Result<Vec<ChapterInfo>, FanqieError>)
    ensures
        resp.code != 200 ==> (r matches Err(e) && e matches FanqieError::ChapterFetch(s) && s@
            == "chapter list request returned code "@ + spec_idigits(resp.code as int)),
        resp.code == 200 ==> ({
            match spec_list_payload(resp) {
                Some(d) => {
                    &&& spec_has_volume_chapters(d) ==> (r matches Ok(v) && (
                    d.chapter_list_with_volume matches Some(vols) ==> v@ == spec_flatten_volumes(
                        vols@,
                    )))
                    &&& (!spec_has_volume_chapters(d) && d.data is Some) ==> (d.data matches Some(
                        chapters,
                    ) && r == Ok::<Vec<ChapterInfo>, FanqieError>(chapters))
                    &&& (!spec_has_volume_chapters(d) && d.data is None) ==> (r matches Err(e)
                        && e matches FanqieError::ChapterFetch(s) && s@ == "empty chapter list"@)
                },
                None => r matches Err(e) && e matches FanqieError::ChapterFetch(s) && s@
                    == "empty chapter list"@,
            }
        }),
{
    if resp.code != 200 {
        let mut m = "chapter list request returned code ".to_owned();
        m.append(i64_to_string(resp.code as i64).as_str());
        return Err(FanqieError::ChapterFetch(m));
    }
    let payload = match resp.data {
        Some(w) => w.data,
        None => None,
    };
    match payload {
        Some(d) => {
            if let Some(vols) = &d.chapter_list_with_volume {
                let chapters = flatten_volumes(vols);
                if chapters.len() > 0 {
                    return Ok(chapters);
                }
            }
            match d.data {
                Some(chapters) => Ok(chapters),
                None => Err(FanqieError::ChapterFetch("empty chapter list".to_owned())),
            }
        },
        None => Err(FanqieError::ChapterFetch("empty chapter list".to_owned())),
    }
}

/// The saturated total of the volume lengths of a grouped listing.
pub open spec fn spec_volume_total(vols: Seq<Vec<ChapterInfoRaw>>) -> nat
    decreases vols.len(),
{
    if vols.len() == 0 {
        0
    } else {
        spec_volume_total(vols.drop_last()) + vols.last()@.len()
    }
}

/// How many chapters a chapter-list response says the book has, by the
/// same precedence the listing shapes use: the id list's length, else the
/// volume lengths summed, else the flat list's length, else unknown.
pub fn chapter_count_from_list(resp: &ChapterListResponse) -> (r: Option<usize>)
    ensures
        ({
            match spec_list_payload(*resp) {
                Some(d) => {
                    &&& d.all_item_ids matches Some(ids) ==> r == Some(ids@.len() as usize)
                    &&& d.all_item_ids is None ==> (d.chapter_list_with_volume matches Some(vols)
                        ==> (r is Some && (spec_volume_total(vols@) <= usize::MAX ==> r == Some(
                        spec_volume_total(vols@) as usize,
                    ))))
                    &&& (d.all_item_ids is None && d.chapter_list_with_volume is None) ==> (
                    d.data matches Some(chapters) ==> r == Some(chapters@.len() as usize))
                    &&& (d.all_item_ids is None && d.chapter_list_with_volume is None && d.data
                        is None) ==> r is None
                },
                None => r is None,
            }
        }),
{
    let payload = match &resp.data {
        Some(w) => &w.data,
        None => &None,
    };
    match payload {
        Some(d) => {
            if let Some(ids) = &d.all_item_ids {
                return Some(ids.len());
            }
            if let Some(vols) = &d.chapter_list_with_volume {
                let mut total: usize = 0;
                let mut i: usize = 0;
                let ghost cap = usize::MAX as nat;
                proof {
                    assert(vols@.subrange(0, 0) =~= Seq::<Vec<ChapterInfoRaw>>::empty());
                }
                #[verifier::loop_isolation(false)]
                while i < vols.len()
                    invariant
                        i <= vols@.len(),
                        total <= usize::MAX,
                        spec_volume_total(vols@.subrange(0, i as int)) <= usize::MAX ==> total
                            == spec_volume_total(vols@.subrange(0, i as int)),
                        spec_volume_total(vols@.subrange(0, i as int)) > usize::MAX ==> total
                            == usize::MAX,
                        total <= spec_volume_total(vols@.subrange(0, i as int)),
                    decreases vols@.len() - i,
                {
                    let n = vols[i].len();
                    proof {
                        let longer = vols@.subrange(0, i as int + 1);
                        assert(longer.drop_last() =~= vols@.subrange(0, i as int));
                        assert(longer.last() == vols@[i as int]);
                    }
                    if n <= usize::MAX - total {
                        total = total + n;
                    } else {
                        total = usize::MAX;
                    }
                    i = i + 1;
                }
                proof {
                    assert(vols@.subrange(0, vols@.len() as int) =~= vols@);
                }
                return Some(total);
            }
            match &d.data {
                Some(chapters) => Some(chapters.len()),
                None => None,
            }
        },
        None => None,
    }
}

/// The content-response decision: a success code with a payload yields the
/// chapter; a non-success code or a missing payload is a per-chapter
/// fetch error naming the chapter.
pub fn chapter_from_response(resp: ChapterContentResponse, chapter_id: &str) -> (r: Result<
    ChapterContent,
    FanqieError,
>)
    ensures
        r is Ok <==> resp.code == 200 && resp.data is Some,
        resp.code == 200 ==> (resp.data matches Some(c) ==> r == Ok::<
            ChapterContent,
            FanqieError,
        >(c)),
        resp.code != 200 ==> (r matches Err(e) && e matches FanqieError::ChapterFetch(s) && s@
            == "chapter content request failed: "@ + chapter_id@),
        resp.code == 200 && resp.data is None ==> (r matches Err(e)
            && e matches FanqieError::ChapterFetch(s) && s@ == "empty chapter content: "@
            + chapter_id@),
{
    if resp.code != 200 {
        let mut m = "chapter content request failed: ".to_owned();
        m.append(chapter_id);
        return Err(FanqieError::ChapterFetch(m));
    }
    match resp.data {
        Some(c) => Ok(c),
        None => {
            let mut m = "empty chapter content: ".to_owned();
            m.append(chapter_id);
            Err(FanqieError::ChapterFetch(m))
        },
    }
}

/// The zero-based start of a one-based optional chapter range.
pub open spec fn spec_range_start(start_chapter: Option<usize>) -> int {
    match start_chapter {
        Some(s) => if s >= 1 {
            s - 1
        } else {
            0
        },
        None => 0,
    }
}

/// The exclusive end of an optional chapter range over `total` chapters.
pub open spec fn spec_range_end(end_chapter: Option<usize>, total: nat) -> int {
    match end_chapter {
        Some(e) => if e <= total {
            e as int
        } else {
            total as int
        },
        None => total as int,
    }
}

/// Cuts the requested one-based chapter range out of the full list. A
/// start past the last chapter is refused; an end past the last chapter is
/// clamped to it.
pub fn select_chapter_range(
    chapters: Vec<ChapterInfo>,
    start_chapter: Option<usize>,
    end_chapter: Option<usize>,
) -> (r: Result<Vec<ChapterInfo>, FanqieError>)
    requires
        spec_range_start(start_chapter) < chapters@.len() ==> spec_range_start(start_chapter)
            <= spec_range_end(end_chapter, chapters@.len()),
    ensures
        r is Err <==> spec_range_start(start_chapter) >= chapters@.len(),
        r matches Ok(v) ==> v@ == chapters@.subrange(
            spec_range_start(start_chapter),
            spec_range_end(end_chapter, chapters@.len()),
        ),
        r matches Err(e) ==> (e matches FanqieError::Download(s) && s@
            == "start chapter out of range"@),
{
    let total = chapters.len();
    let start: usize = match start_chapter {
        Some(s) => if s >= 1 {
            s - 1
        } else {
            0
        },
        None => 0,
    };
    let end: usize = match end_chapter {
        Some(e) => if e <= total {
            e
        } else {
            total
        },
        None => total,
    };
    if start >= total {
        return Err(FanqieError::Download("start chapter out of range".to_owned()));
    }
    let mut out: Vec<ChapterInfo> = Vec::new();
    let mut i: usize = start;
    proof {
        assert(chapters@.subrange(start as int, start as int) =~= Seq::<ChapterInfo>::empty());
    }
    #[verifier::loop_isolation(false)]
    while i < end
        invariant
            start <= i <= end || i == start,
            i <= chapters@.len(),
            end <= chapters@.len(),
            out@ == chapters@.subrange(start as int, i as int),
        decreases end - i,
    {
        out.push(chapters[i].clone());
        proof {
            assert(chapters@.subrange(start as int, i as int + 1) =~= chapters@.subrange(
                start as int,
                i as int,
            ).push(chapters@[i as int]));
        }
        i = i + 1;
    }
    Ok(out)
}

// ---------------------------------------------------------------------------
// The windowed fetch pipeline
//
// Chapter bodies are fetched in consecutive windows of bounded size; one
// window's fetches run concurrently, windows run strictly one after the
// other. The windowing plan and the order-preserving collection of the
// outcomes are verified here; issuing the fetches and waiting on a window
// happen with the caller, which hands each window's outcomes back in their
// original order.
// ---------------------------------------------------------------------------

/// The consecutive windows of size `window` covering `total` items: window
/// `i` spans `i * window` up to the next multiple or the total, whichever
/// comes first, so every window is full except possibly the last and
/// together they cover exactly the whole range, in order.
pub fn plan_windows(total: usize, window: usize) -> (r: Vec<(usize, usize)>)
    requires
        window >= 1,
    ensures
        forall|i: int| 0 <= i < r@.len() ==> (#[trigger] r@[i]).0 == i * window,
        forall|i: int| 0 <= i < r@.len() ==> (#[trigger] r@[i]).1 == if (i + 1) * window
            <= total {
            (i + 1) * window
        } else {
            total as int
        },
        r@.len() * window >= total,
        r@.len() > 0 ==> (r@.len() - 1) * window < total,
        total == 0 ==> r@.len() == 0,
{
    let mut r: Vec<(usize, usize)> = Vec::new();
    let mut start: usize = 0;
    proof {
        assert(r@.len() * window == 0) by (nonlinear_arith)
            requires
                r@.len() == 0,
        ;
    }
    #[verifier::loop_isolation(false)]
    while start < total
        invariant
            start <= total,
            start == if r@.len() * window <= total {
                r@.len() * window
            } else {
                total as int
            },
            r@.len() > 0 ==> (r@.len() - 1) * window < total,
            forall|i: int| 0 <= i < r@.len() ==> (#[trigger] r@[i]).0 == i * window,
            forall|i: int| 0 <= i < r@.len() ==> (#[trigger] r@[i]).1 == if (i + 1) * window
                <= total {
                (i + 1) * window
            } else {
                total as int
            },
        decreases total - start,
    {
        let ghost len0 = r@.len();
        proof {
            assert(start == len0 * window);
            assert((len0 + 1) * window == len0 * window + window) by (nonlinear_arith);
        }
        let end: usize = if total - start > window {
            start + window
        } else {
            total
        };
        r.push((start, end));
        start = end;
    }
    proof {
        if r@.len() * window <= total {
            assert(start == r@.len() * window);
        }
    }
    r
}

/// The outcome of fetching one chapter body: the content, or the failing
/// chapter's id with the reason.
#[derive(Debug)]
pub enum FetchOutcome {
    Success { content: ChapterContent },
    Failure { chapter_id: String, reason: FanqieError },
}

/// The contents of the successful outcomes, in input order: the input
/// order restricted to the subsequence that succeeded.
pub open spec fn spec_successes(s: Seq<FetchOutcome>) -> Seq<ChapterContent>
    decreases s.len(),
{
    if s.len() == 0 {
        Seq::empty()
    } else {
        let rest = spec_successes(s.drop_last());
        match s.last() {
            FetchOutcome::Success { content } => rest.push(content),
            FetchOutcome::Failure { .. } => rest,
        }
    }
}

/// Splitting the outcome list anywhere splits the kept contents the same
/// way: collecting windows one after the other yields exactly what
/// collecting the whole list at once would, so the strictly sequential
/// windows never reorder across window boundaries.
pub proof fn lemma_successes_append(a: Seq<FetchOutcome>, b: Seq<FetchOutcome>)
    ensures
        spec_successes(a + b) == spec_successes(a) + spec_successes(b),
    decreases b.len(),
{
    if b.len() == 0 {
        assert(a + b =~= a);
        assert(spec_successes(a) + spec_successes(b) =~= spec_successes(a));
    } else {
        lemma_successes_append(a, b.drop_last());
        assert((a + b).drop_last() =~= a + b.drop_last());
        assert((a + b).last() == b.last());
        match b.last() {
            FetchOutcome::Success { content } => {
                assert(spec_successes(a) + spec_successes(b.drop_last()).push(content) =~= (
                spec_successes(a) + spec_successes(b.drop_last())).push(content));
            },
            FetchOutcome::Failure { .. } => {},
        }
    }
}

/// With no failures, the pipeline keeps every chapter, each in its own
/// place.
pub proof fn lemma_all_success_keeps_all(outcomes: Seq<FetchOutcome>)
    requires
        forall|i: int| 0 <= i < outcomes.len() ==> #[trigger] outcomes[i] is Success,
    ensures
        spec_successes(outcomes).len() == outcomes.len(),
        forall|i: int| 0 <= i < outcomes.len() ==> #[trigger] spec_successes(outcomes)[i]
            == outcomes[i]->content,
    decreases outcomes.len(),
{
    if outcomes.len() > 0 {
        let front = outcomes.drop_last();
        assert forall|i: int| 0 <= i < front.len() implies #[trigger] front[i] is Success by {
            assert(front[i] == outcomes[i]);
        }
        lemma_all_success_keeps_all(front);
    }
}

/// When exactly one outcome — the one at position `j` — failed, the
/// pipeline keeps one chapter fewer than it was given: the kept chapters
/// before `j` sit at their own positions, the ones after `j` move up by
/// one place, and the relative order of the rest is preserved.
pub proof fn lemma_single_failure_drops_one(outcomes: Seq<FetchOutcome>, j: int)
    requires
        0 <= j < outcomes.len(),
        outcomes[j] is Failure,
        forall|i: int| 0 <= i < outcomes.len() && i != j ==> #[trigger] outcomes[i] is Success,
    ensures
        spec_successes(outcomes).len() == outcomes.len() - 1,
        forall|i: int| 0 <= i < j ==> #[trigger] spec_successes(outcomes)[i]
            == outcomes[i]->content,
        forall|i: int| j <= i < outcomes.len() - 1 ==> #[trigger] spec_successes(outcomes)[i]
            == outcomes[i + 1]->content,
    decreases outcomes.len(),
{
    let front = outcomes.drop_last();
    if j == outcomes.len() - 1 {
        assert forall|i: int| 0 <= i < front.len() implies #[trigger] front[i] is Success by {
            assert(front[i] == outcomes[i]);
        }
        lemma_all_success_keeps_all(front);
    } else {
        assert forall|i: int| 0 <= i < front.len() && i != j implies #[trigger] front[i]
            is Success by {
            assert(front[i] == outcomes[i]);
        }
        lemma_single_failure_drops_one(front, j);
    }
}

/// Folds one window's outcomes, in their original order, into the running
/// output and the progress stream: a success appends its content to the
/// output and reports the chapter done under its global one-based
/// position; a failure reports an error and drops the chapter, failing
/// nothing else — a shorter output is a legitimate outcome.
pub fn process_window(
    outcomes: Vec<FetchOutcome>,
    base_index: usize,
    total: usize,
    results: &mut Vec<ChapterContent>,
    events: &mut Vec<DownloadProgress>,
)
    requires
        base_index + outcomes@.len() <= total,
    ensures
        final(results)@ == old(results)@ + spec_successes(outcomes@),
        final(events)@.len() == old(events)@.len() + outcomes@.len(),
        forall|i: int|
            0 <= i < old(events)@.len() ==> #[trigger] final(events)@[i] == old(events)@[i],
        forall|i: int|
            0 <= i < outcomes@.len() ==> ({
                let ev = #[trigger] final(events)@[old(events)@.len() + i];
                match outcomes@[i] {
                    FetchOutcome::Success { content } => ev == (DownloadProgress::Chapter {
                        current: (base_index + i + 1) as usize,
                        total,
                        title: content.title,
                    }),
                    FetchOutcome::Failure { chapter_id, reason } => ev
                        matches DownloadProgress::Error { message } && message@
                        == "chapter download failed: "@ + spec_message(reason),
                }
            }),
{
    let ghost all = outcomes@;
    let ghost results0 = results@;
    let ghost events0 = events@;
    let mut rest = outcomes;
    let mut i: usize = 0;
    let n = rest.len();
    proof {
        assert(all.subrange(0, 0) =~= Seq::<FetchOutcome>::empty());
        assert(results0 + spec_successes(all.subrange(0, 0)) =~= results0);
    }
    #[verifier::loop_isolation(false)]
    while i < n
        invariant
            i <= n,
            n == all.len(),
            rest@ =~= all.subrange(i as int, all.len() as int),
            results@ == results0 + spec_successes(all.subrange(0, i as int)),
            events@.len() == events0.len() + i,
            forall|k: int| 0 <= k < events0.len() ==> #[trigger] events@[k] == events0[k],
            forall|k: int|
                0 <= k < i ==> ({
                    let ev = #[trigger] events@[events0.len() + k];
                    match all[k] {
                        FetchOutcome::Success { content } => ev == (DownloadProgress::Chapter {
                            current: (base_index + k + 1) as usize,
                            total,
                            title: content.title,
                        }),
                        FetchOutcome::Failure { chapter_id, reason } => ev
                            matches DownloadProgress::Error { message } && message@
                            == "chapter download failed: "@ + spec_message(reason),
                    }
                }),
        decreases n - i,
    {
        let outcome = rest.remove(0);
        proof {
            assert(outcome == all[i as int]);
            assert(rest@ =~= all.subrange(i as int + 1, all.len() as int));
            let longer = all.subrange(0, i as int + 1);
            assert(longer.drop_last() =~= all.subrange(0, i as int));
            assert(longer.last() == all[i as int]);
        }
        match outcome {
            FetchOutcome::Success { content } => {
                events.push(
                    DownloadProgress::Chapter {
                        current: base_index + i + 1,
                        total,
                        title: content.title.clone(),
                    },
                );
                proof {
                    assert(results0 + spec_successes(all.subrange(0, i as int)).push(content)
                        =~= (results0 + spec_successes(all.subrange(0, i as int))).push(content));
                }
                results.push(content);
            },
            FetchOutcome::Failure { chapter_id: _, reason } => {
                let mut m = "chapter download failed: ".to_owned();
                m.append(reason.message().as_str());
                events.push(DownloadProgress::Error { message: m });
            },
        }
        i = i + 1;
    }
    proof {
        assert(all.subrange(0, all.len() as int) =~= all);
    }
}

/// The whole fetch pipeline over every chapter's outcome, processed in
/// consecutive windows of `max_parallel` as the fetches were issued: the
/// output holds exactly the successful chapters, in input order — windows
/// never reorder anything — and the progress stream opens with the start
/// event, followed by one event per chapter in order.
pub fn fetch_pipeline(outcomes: Vec<FetchOutcome>, max_parallel: usize) -> (r: (
    Vec<ChapterContent>,
    Vec<DownloadProgress>,
))
    requires
        max_parallel >= 1,
    ensures
        r.0@ == spec_successes(outcomes@),
        r.1@.len() == outcomes@.len() + 1,
        r.1@[0] == (DownloadProgress::Started { total: outcomes@.len() as usize }),
        forall|i: int|
            0 <= i < outcomes@.len() ==> ({
                let ev = #[trigger] r.1@[i + 1];
                match outcomes@[i] {
                    FetchOutcome::Success { content } => ev == (DownloadProgress::Chapter {
                        current: (i + 1) as usize,
                        total: outcomes@.len() as usize,
                        title: content.title,
                    }),
                    FetchOutcome::Failure { chapter_id, reason } => ev
                        matches DownloadProgress::Error { message } && message@
                        == "chapter download failed: "@ + spec_message(reason),
                }
            }),
{
    let ghost all = outcomes@;
    let total = outcomes.len();
    let mut results: Vec<ChapterContent> = Vec::new();
    let mut events: Vec<DownloadProgress> = Vec::new();
    events.push(DownloadProgress::Started { total });
    let windows = plan_windows(total, max_parallel);
    let ghost n_windows = windows@.len() as int;
    let mut rest = outcomes;
    let mut w: usize = 0;
    proof {
        assert(all.subrange(0, 0) =~= all.subrange(0, 0));
        assert(spec_successes(all.subrange(0, 0)) =~= Seq::<ChapterContent>::empty()) by {
            assert(all.subrange(0, 0) =~= Seq::<FetchOutcome>::empty());
        }
        if n_windows > 0 {
            assert(windows@[0].0 == 0) by {
                assert(windows@[0].0 == 0 * max_parallel);
                assert(0 * max_parallel == 0) by (nonlinear_arith);
            }
        }
        assert(all.subrange(0, total as int) =~= all);
    }
    #[verifier::loop_isolation(false)]
    while w < windows.len()
        invariant
            w <= n_windows,
            ({
                let done = if w < n_windows {
                    windows@[w as int].0 as int
                } else {
                    total as int
                };
                &&& 0 <= done <= total
                &&& rest@ =~= all.subrange(done, total as int)
                &&& results@ == spec_successes(all.subrange(0, done))
                &&& events@.len() == done + 1
                &&& events@[0] == (DownloadProgress::Started { total })
                &&& forall|i: int|
                    0 <= i < done ==> ({
                        let ev = #[trigger] events@[i + 1];
                        match all[i] {
                            FetchOutcome::Success { content } => ev == (DownloadProgress::Chapter {
                                current: (i + 1) as usize,
                                total,
                                title: content.title,
                            }),
                            FetchOutcome::Failure { chapter_id, reason } => ev
                                matches DownloadProgress::Error { message } && message@
                                == "chapter download failed: "@ + spec_message(reason),
                        }
                    })
            }),
        decreases n_windows - w,
    {
        let (start, end) = windows[w];
        proof {
            let mp = max_parallel as int;
            assert(start == w * mp);
            assert((w + 1) * mp == w * mp + mp) by (nonlinear_arith);
            if (w as int + 1) * mp <= total {
                assert(end == (w + 1) * mp);
            } else {
                assert(end == total);
            }
            assert(start <= end <= total);
        }
        let ghost events_before = events@;
        let window_items = rest.split_off(end - start);
        // split_off keeps this window's outcomes in place and hands back
        // the remainder.
        let this_window = rest;
        rest = window_items;
        proof {
            assert(this_window@ =~= all.subrange(start as int, end as int));
        }
        process_window(this_window, start, total, &mut results, &mut events);
        proof {
            assert(all.subrange(0, start as int) + all.subrange(start as int, end as int) =~= all
                .subrange(0, end as int));
            lemma_successes_append(
                all.subrange(0, start as int),
                all.subrange(start as int, end as int),
            );
            assert(rest@ =~= all.subrange(end as int, total as int));
            let mp = max_parallel as int;
            if w as int + 1 < n_windows {
                // the next window starts exactly where this one ended
                assert(windows@[w as int + 1].0 == (w + 1) * mp);
                assert((w as int + 1) * mp <= (n_windows - 1) * mp) by (nonlinear_arith)
                    requires
                        w as int + 1 <= n_windows - 1,
                        mp >= 0,
                ;
                assert((n_windows - 1) * mp < total);
                assert(end == (w + 1) * mp);
            } else {
                // this was the last window, which ends at the total
                assert(n_windows * mp >= total);
                assert(end == total);
            }
            let win = all.subrange(start as int, end as int);
            assert forall|i: int|
                0 <= i < end implies ({
                let ev = #[trigger] events@[i + 1];
                match all[i] {
                    FetchOutcome::Success { content } => ev == (DownloadProgress::Chapter {
                        current: (i + 1) as usize,
                        total,
                        title: content.title,
                    }),
                    FetchOutcome::Failure { chapter_id, reason } => ev
                        matches DownloadProgress::Error { message } && message@
                        == "chapter download failed: "@ + spec_message(reason),
                }
            }) by {
                if i < start {
                    assert(events@[i + 1] == events_before[i + 1]);
                } else {
                    let j = i - start;
                    assert(events@[events_before.len() + j] == events@[i + 1]);
                    assert(win[j] == all[i]);
                }
            }
        }
        w = w + 1;
    }
    (results, events)
}

// ---------------------------------------------------------------------------
// Output format selection
// ---------------------------------------------------------------------------

/// What `str::to_lowercase` returns for the given characters.
pub uninterp spec fn lower_of(s: Seq<char>) -> Seq<char>;

/// Relies on `str::to_lowercase`: Unicode lowercasing that depends on the
/// characters alone, not on any locale or environment.
#[verifier::external_body]
fn lowercase(s: &str) -> (r: String)
    ensures
        r@ == lower_of(s@),
{
    s.to_lowercase()
}

/// The output format of one download run.
#[derive(Debug, Clone, Copy, PartialEq, Eq, Structural)]
pub enum ExportKind {
    Txt,
    Epub,
}

/// Which format a run's format string selects: an e-book exactly when the
/// string lowercases to the e-book format's name, plain text otherwise.
pub fn export_kind(format: &str) -> (r: ExportKind)
    ensures
        lower_of(format@) == "epub"@ ==> r == ExportKind::Epub,
        lower_of(format@) != "epub"@ ==> r == ExportKind::Txt,
{
    let lower = lowercase(format);
    if str_eq(lower.as_str(), "epub") {
        ExportKind::Epub
    } else {
        ExportKind::Txt
    }
}

} // verus!

