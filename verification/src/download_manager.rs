use vstd::prelude::*;
use vstd::string::StrSliceExecFns;

use std::collections::HashMap;

use crate::errors::TaskError;
use crate::events::DownloadTaskEvent;
use crate::types::Comic;
use crate::utils;

verus! {

pub const IMAGE_DOMAIN: &'static str = "cdn-msp2.jmapiproxy2.cc";

/// Chapters older than this id are always split into ten bands.
pub const SCRAMBLE_LEGACY_THRESHOLD: i64 = 268850;

/// Chapters older than this id reduce the digest character modulo ten,
/// younger ones modulo eight.
pub const SCRAMBLE_MOD_THRESHOLD: i64 = 421926;

/// The number of horizontal bands an image must be split into to undo the
/// server-side scrambling; zero means the image is not scrambled at all.
pub open spec fn spec_block_num(scramble_id: int, id: int, filename: Seq<char>) -> int {
    if id < scramble_id {
        0
    } else if id < SCRAMBLE_LEGACY_THRESHOLD as int {
        10
    } else {
        let x: int = if id < SCRAMBLE_MOD_THRESHOLD as int {
            10
        } else {
            8
        };
        let digest = utils::md5_hex_of(utils::spec_dec_chars(id as nat) + filename);
        ((digest.last() as u32) as int % x) * 2 + 2
    }
}

/// Computes how many bands an image was scrambled into, from the volatile
/// scramble id, the chapter id and the image's file name without extension.
/// An id below the scramble id is never scrambled; otherwise the count is
/// even and never zero.
pub fn calculate_block_num(scramble_id: i64, id: i64, filename: &str) -> (r: u32)
    ensures
        r == spec_block_num(scramble_id as int, id as int, filename@),
        id < scramble_id ==> r == 0,
        id >= scramble_id ==> r % 2 == 0 && r != 0,
{
    if id < scramble_id {
        0
    } else if id < SCRAMBLE_LEGACY_THRESHOLD {
        10
    } else {
        let x: u32 = if id < SCRAMBLE_MOD_THRESHOLD {
            10
        } else {
            8
        };
        let mut s = utils::u64_to_dec_chars(id as u64);
        let mut f = utils::chars_of(filename);
        s.append(&mut f);
        let joined = utils::string_from_chars(&s);
        let digest = utils::md5_hex(joined.as_str());
        let last = digest.as_str().get_char(31);
        assert(digest@[31] == digest@.last());
        (last as u32 % x) * 2 + 2
    }
}

/// One image pixel; red, green and blue channels.
#[derive(Clone, Copy, Debug, PartialEq, Eq, Structural)]
pub struct Pixel {
    pub r: u8,
    pub g: u8,
    pub b: u8,
}

/// A decoded still image, row-major.
pub struct RgbImage {
    pub width: u32,
    pub height: u32,
    pub pixels: Vec<Pixel>,
}

impl RgbImage {
    /// The pixel buffer holds exactly one pixel per coordinate.
    pub open spec fn wf(&self) -> bool {
        self.pixels@.len() == self.width as int * self.height as int
    }

    pub open spec fn pixel_at(&self, x: int, y: int) -> Pixel {
        self.pixels@[y * self.width as int + x]
    }
}

/// The source row that ends up in destination row `dy` when an image of
/// height `h` is reassembled from `bn` bands: the bands are read bottom-up
/// from the source and written top-down, the topmost band absorbing the
/// remainder rows.
pub open spec fn stitch_src_row(h: int, bn: int, dy: int) -> int
    recommends
        1 <= bn,
        0 <= dy < h,
{
    let bh = h / bn;
    let rem = h % bn;
    if dy < bh + rem {
        h - bh - rem + dy
    } else {
        let i = (dy - rem) / bh;
        h - bh * (i + 1) - rem + (dy - (bh * i + rem))
    }
}

proof fn lemma_row_major_distinct(w: int, x1: int, y1: int, x2: int, y2: int)
    by (nonlinear_arith)
    requires
        0 <= x1 < w,
        0 <= x2 < w,
        0 <= y1 < y2,
    ensures
        y1 * w + x1 < y2 * w + x2,
{
}

proof fn lemma_row_major_in_range(w: int, h: int, x: int, y: int)
    by (nonlinear_arith)
    requires
        0 <= x < w,
        0 <= y < h,
    ensures
        0 <= y * w,
        0 <= y * w + x < h * w,
{
}

/// Band `i` of `bn` fits inside the image: its last destination row and its
/// source rows lie below the height.
proof fn lemma_band_bounds(h: int, bn: int, i: int)
    requires
        1 <= bn,
        0 <= i < bn,
        0 <= h,
    ensures
        ({
            let bh = h / bn;
            let rem = h % bn;
            0 <= bh && 0 <= rem && h == bn * bh + rem && 0 <= bh * i && bh * i + rem <= bh * (i + 1)
                + rem <= h
        }),
{
    let bh = h / bn;
    let rem = h % bn;
    assert(h == bn * bh + rem && 0 <= rem < bn && 0 <= bh) by (nonlinear_arith)
        requires
            1 <= bn,
            0 <= h,
            bh == h / bn,
            rem == h % bn,
    ;
    assert(0 <= bh * i && bh * i <= bh * (i + 1) && bh * (i + 1) + rem <= h) by (nonlinear_arith)
        requires
            0 <= i < bn,
            0 <= bh,
            0 <= rem,
            h == bn * bh + rem,
    ;
}

/// In destination band `i`, row offset `y` of the band lands in destination
/// row `dy` and is read from source row `sy`.
proof fn lemma_stitch_row_band(h: int, bn: int, i: int, y: int)
    requires
        1 <= bn,
        0 <= i < bn,
        0 <= h,
        i == 0 ==> 0 <= y < h / bn + h % bn,
        i >= 1 ==> 0 <= y < h / bn,
    ensures
        ({
            let bh = h / bn;
            let rem = h % bn;
            let dy = if i == 0 {
                y
            } else {
                bh * i + rem + y
            };
            let sy = h - bh * (i + 1) - rem + y;
            0 <= dy < h && 0 <= sy < h && stitch_src_row(h, bn, dy) == sy && bh * (i + 1) + rem
                <= h
        }),
{
    let bh = h / bn;
    let rem = h % bn;
    lemma_band_bounds(h, bn, i);
    if i == 0 {
        assert(bh + rem <= h) by (nonlinear_arith)
            requires
                1 <= bn,
                0 <= bh,
                0 <= rem,
                h == bn * bh + rem,
        ;
        assert(bh * (i + 1) == bh && bh * i == 0) by (nonlinear_arith)
            requires
                i == 0,
        ;
        assert(stitch_src_row(h, bn, y) == h - bh - rem + y);
    } else {
        let dy = bh * i + rem + y;
        assert(bh * i >= bh) by (nonlinear_arith)
            requires
                i >= 1,
                bh >= 0,
        ;
        assert(dy >= bh + rem);
        assert((dy - rem) / bh == i) by (nonlinear_arith)
            requires
                dy == bh * i + rem + y,
                0 <= y < bh,
        ;
        assert(dy < h) by (nonlinear_arith)
            requires
                dy == bh * i + rem + y,
                y < bh,
                bh * (i + 1) + rem <= h,
        ;
        assert(stitch_src_row(h, bn, dy) == h - bh * (i + 1) - rem + y);
        assert(bh <= bh * (i + 1)) by (nonlinear_arith)
            requires
                i >= 1,
                bh >= 0,
        ;
    }
}

/// The reassembled pixel buffer as one expression: destination row `dy`
/// is source row `stitch_src_row(h, bn, dy)`, column by column.
pub open spec fn spec_stitch(w: int, h: int, pixels: Seq<Pixel>, bn: int) -> Seq<Pixel> {
    Seq::new(pixels.len(), |idx: int| pixels[stitch_src_row(h, bn, idx / w) * w + idx % w])
}

/// All destination rows below `upto` already hold their reassembled pixels.
pub open spec fn rows_copied(dst: Seq<Pixel>, src: RgbImage, bn: int, upto: int) -> bool {
    forall|x: int, y: int|
        0 <= x < src.width && 0 <= y < upto ==> dst[y * src.width as int + x] == src.pixel_at(
            x,
            stitch_src_row(src.height as int, bn, y),
        )
}

/// Reassembles a scrambled image: the source is split into `block_num`
/// horizontal bands measured bottom-up and the bands are written top-down,
/// the first (topmost) band absorbing the remainder rows. Only whole row
/// bands move; every destination row is a copy of one source row.
pub fn stitch_img(src: &RgbImage, block_num: u32) -> (dst: RgbImage)
    requires
        src.wf(),
        1 <= block_num,
    ensures
        dst.wf(),
        dst.width == src.width,
        dst.height == src.height,
        forall|x: int, y: int|
            0 <= x < src.width && 0 <= y < src.height ==> dst.pixel_at(x, y) == src.pixel_at(
                x,
                stitch_src_row(src.height as int, block_num as int, y),
            ),
        dst.pixels@ == spec_stitch(
            src.width as int,
            src.height as int,
            src.pixels@,
            block_num as int,
        ),
{
    let width = src.width;
    let height = src.height;
    let ghost h = height as int;
    let ghost bn = block_num as int;
    // start from a copy of the source buffer; every row is overwritten below
    let mut pixels: Vec<Pixel> = Vec::new();
    let total = src.pixels.len();
    let mut k: usize = 0;
    while k < total
        invariant
            total == src.pixels@.len(),
            k <= src.pixels@.len(),
            pixels@.len() == k,
            forall|j: int| 0 <= j < k ==> pixels@[j] == src.pixels@[j],
        decreases src.pixels@.len() - k,
    {
        pixels.push(src.pixels[k]);
        k += 1;
    }
    let bh = height / block_num;
    let rem = height % block_num;
    proof {
        assert(h == bn * (h / bn) + h % bn && 0 <= h % bn < bn) by (nonlinear_arith)
            requires
                1 <= bn,
                0 <= h,
        ;
    }
    let mut i: u32 = 0;
    while i < block_num
        invariant
            src.wf(),
            1 <= block_num,
            width == src.width,
            height == src.height,
            h == height as int,
            bn == block_num as int,
            bh == height / block_num,
            rem == height % block_num,
            h == bn * bh as int + rem as int,
            i <= block_num,
            src.pixels@.len() <= usize::MAX,
            pixels@.len() == src.pixels@.len(),
            rows_copied(
                pixels@,
                *src,
                bn,
                if i == 0 {
                    0
                } else {
                    bh as int * i as int + rem as int
                },
            ),
        decreases block_num - i,
    {
        proof {
            lemma_band_bounds(h, bn, i as int);
            assert(bh as int + rem as int <= h) by (nonlinear_arith)
                requires
                    1 <= bn,
                    0 <= bh as int,
                    0 <= rem as int,
                    h == bn * bh as int + rem as int,
            ;
        }
        let block_height = if i == 0 {
            bh + rem
        } else {
            bh
        };
        let src_y_start = height - bh * (i + 1) - rem;
        let dst_y_start = if i == 0 {
            0
        } else {
            bh * i + rem
        };
        let ghost covered = if i == 0 {
            0int
        } else {
            bh as int * i as int + rem as int
        };
        assert(dst_y_start as int == covered);
        let mut y: u32 = 0;
        while y < block_height
            invariant
                src.wf(),
                1 <= block_num,
                width == src.width,
                height == src.height,
                h == height as int,
                bn == block_num as int,
                bh == height / block_num,
                rem == height % block_num,
                h == bn * bh as int + rem as int,
                i < block_num,
                i == 0 ==> block_height == bh + rem && dst_y_start == 0,
                i >= 1 ==> block_height == bh && dst_y_start as int == bh as int * i as int
                    + rem as int,
                src_y_start as int == h - bh as int * (i as int + 1) - rem as int,
                covered == dst_y_start as int,
                y <= block_height,
                src.pixels@.len() <= usize::MAX,
                pixels@.len() == src.pixels@.len(),
                rows_copied(pixels@, *src, bn, covered + y as int),
            decreases block_height - y,
        {
            proof {
                lemma_stitch_row_band(h, bn, i as int, y as int);
            }
            let src_y = src_y_start + y;
            let dst_y = dst_y_start + y;
            assert(src_y < height && dst_y < height);
            let mut x: u32 = 0;
            while x < width
                invariant
                    src.wf(),
                    width == src.width,
                    height == src.height,
                    h == height as int,
                    bn == block_num as int,
                    x <= width,
                    src_y < height,
                    dst_y < height,
                    dst_y as int == covered + y as int,
                    stitch_src_row(h, bn, dst_y as int) == src_y as int,
                    src.pixels@.len() <= usize::MAX,
                    pixels@.len() == src.pixels@.len(),
                    rows_copied(pixels@, *src, bn, covered + y as int),
                    forall|xx: int|
                        0 <= xx < x ==> pixels@[dst_y as int * width as int + xx] == src.pixel_at(
                            xx,
                            src_y as int,
                        ),
                decreases width - x,
            {
                proof {
                    lemma_row_major_in_range(width as int, h, x as int, src_y as int);
                    lemma_row_major_in_range(width as int, h, x as int, dst_y as int);
                    assert(h * width as int == src.pixels@.len()) by (nonlinear_arith)
                        requires
                            src.wf(),
                            width == src.width,
                            h == src.height as int,
                    ;
                    assert(src.pixels@.len() <= usize::MAX);
                }
                let src_idx: usize = src_y as usize * width as usize + x as usize;
                let dst_idx: usize = dst_y as usize * width as usize + x as usize;
                let p = src.pixels[src_idx];
                pixels[dst_idx] = p;
                proof {
                    assert forall|xx: int, yy: int|
                        0 <= xx < width && 0 <= yy < covered + y as int implies pixels@[yy
                        * width as int + xx] == src.pixel_at(
                        xx,
                        stitch_src_row(h, bn, yy),
                    ) by {
                        lemma_row_major_distinct(width as int, xx, yy, x as int, dst_y as int);
                    }
                    assert forall|xx: int| 0 <= xx < x + 1 implies pixels@[dst_y as int
                        * width as int + xx] == src.pixel_at(xx, src_y as int) by {
                    }
                }
                x += 1;
            }
            y += 1;
            proof {
                assert forall|xx: int, yy: int|
                    0 <= xx < width && 0 <= yy < covered + y as int implies pixels@[yy
                    * width as int + xx] == src.pixel_at(xx, stitch_src_row(h, bn, yy)) by {
                    if yy == covered + y - 1 {
                        assert(stitch_src_row(h, bn, yy) == src_y as int);
                    }
                }
            }
        }
        i += 1;
        proof {
            assert(bh as int * i as int + rem as int == covered + block_height as int)
                by (nonlinear_arith)
                requires
                    i >= 1,
                    covered == if i - 1 == 0 {
                        0int
                    } else {
                        bh as int * (i - 1) + rem as int
                    },
                    block_height as int == if i - 1 == 0 {
                        bh as int + rem as int
                    } else {
                        bh as int
                    },
            ;
        }
    }
    proof {
        assert(bh as int * bn + rem as int == h) by (nonlinear_arith)
            requires
                h == bn * bh as int + rem as int,
        ;
    }
    let dst = RgbImage { width, height, pixels };
    proof {
        assert forall|x: int, y: int| 0 <= x < src.width && 0 <= y < src.height implies
            dst.pixel_at(x, y) == src.pixel_at(x, stitch_src_row(h, bn, y)) by {
            assert(rows_copied(dst.pixels@, *src, bn, h));
        }
        let w = width as int;
        assert forall|idx: int| 0 <= idx < dst.pixels@.len() implies dst.pixels@[idx]
            == src.pixels@[stitch_src_row(h, bn, idx / w) * w + idx % w] by {
            assert(w > 0 && h > 0) by (nonlinear_arith)
                requires
                    0 <= idx < w * h,
                    0 <= w,
                    0 <= h,
            ;
            let y = idx / w;
            let x = idx % w;
            assert(0 <= x < w && 0 <= y < h && y * w + x == idx) by (nonlinear_arith)
                requires
                    w > 0,
                    h > 0,
                    0 <= idx < w * h,
                    y == idx / w,
                    x == idx % w,
            ;
            assert(dst.pixel_at(x, y) == src.pixel_at(x, stitch_src_row(h, bn, y)));
        }
        assert(dst.pixels@ =~= spec_stitch(w, h, src.pixels@, bn));
    }
    dst
}

/// The lifecycle states of a chapter download task.
#[derive(Debug, Clone, Copy, PartialEq, Eq, Structural)]
pub enum DownloadTaskState {
    Pending,
    Downloading,
    Paused,
    Cancelled,
    Completed,
    Failed,
}

impl DownloadTaskState {
    /// A task in an active state blocks a new submission for the same
    /// chapter; a terminal or cancelled task does not.
    pub open spec fn is_active(self) -> bool {
        self is Pending || self is Downloading || self is Paused
    }
}

/// One chapter's download task as the registry sees it: its state, its
/// image counters, and whether it holds a chapter-level permit.
#[derive(Debug, Clone, Copy, PartialEq, Eq, Structural)]
pub struct DownloadTask {
    pub chapter_id: i64,
    pub state: DownloadTaskState,
    pub downloaded_img_count: u32,
    pub total_img_count: u32,
    pub holds_chapter_permit: bool,
}

impl DownloadTask {
    /// A freshly submitted task: queued, holding nothing, counters at zero.
    pub fn new(chapter_id: i64) -> (t: DownloadTask)
        ensures
            t == (DownloadTask {
                chapter_id,
                state: DownloadTaskState::Pending,
                downloaded_img_count: 0,
                total_img_count: 0,
                holds_chapter_permit: false,
            }),
    {
        DownloadTask {
            chapter_id,
            state: DownloadTaskState::Pending,
            downloaded_img_count: 0,
            total_img_count: 0,
            holds_chapter_permit: false,
        }
    }
}

/// What settling a chapter decides: commit the temp directory, or leave it
/// for a later retry because some images are missing.
#[derive(Debug, Clone, Copy, PartialEq, Eq, Structural)]
pub enum SettleOutcome {
    Commit,
    Incomplete,
}

/// The chapter ids whose tasks hold a chapter-level permit.
pub open spec fn spec_holders(m: Map<i64, DownloadTask>) -> Set<i64> {
    m.dom().filter(|k: i64| m[k].holds_chapter_permit)
}

proof fn lemma_holders_finite(m: Map<i64, DownloadTask>)
    requires
        m.dom().finite(),
    ensures
        spec_holders(m).finite(),
{
    broadcast use vstd::std_specs::hash::group_hash_axioms, vstd::set::group_set_axioms;

    vstd::set::axiom_set_intersect_finite(
        m.dom(),
        Set::new(|k: i64| m[k].holds_chapter_permit),
    );
}

proof fn lemma_holders_insert(m: Map<i64, DownloadTask>, k: i64, t: DownloadTask)
    ensures
        t.holds_chapter_permit ==> spec_holders(m.insert(k, t)) =~= spec_holders(m).insert(k),
        !t.holds_chapter_permit ==> spec_holders(m.insert(k, t)) =~= spec_holders(m).remove(k),
{
    broadcast use vstd::std_specs::hash::group_hash_axioms, vstd::set::group_set_axioms;

    if t.holds_chapter_permit {
        assert(spec_holders(m.insert(k, t)) =~= spec_holders(m).insert(k));
    } else {
        assert(spec_holders(m.insert(k, t)) =~= spec_holders(m).remove(k));
    }
}

/// The process-wide registry of chapter download tasks together with the
/// two admission-control semaphores and the rolling byte counter. Permits
/// are conserved: the free chapter permits and the tasks holding one always
/// add up to the chapter concurrency limit, and likewise for image slots.
#[derive(Debug)]
pub struct DownloadManager {
    pub chapter_concurrency: u32,
    pub img_concurrency: u32,
    pub chapter_permits_free: u32,
    pub img_permits_free: u32,
    pub img_permits_in_use: u32,
    pub byte_per_sec: u64,
    pub download_tasks: HashMap<i64, DownloadTask>,
}

impl DownloadManager {
    /// Permit conservation and registry consistency: every registered task
    /// is keyed by its own chapter id, holds a chapter permit exactly while
    /// it is downloading, and the permits in use and free add up to the
    /// configured limits.
    pub open spec fn wf(&self) -> bool {
        &&& spec_holders(self.download_tasks@).len() + self.chapter_permits_free
            == self.chapter_concurrency
        &&& forall|k: i64|
            self.download_tasks@.contains_key(k) ==> (#[trigger] self.download_tasks@[k]).chapter_id
                == k
        &&& forall|k: i64|
            self.download_tasks@.contains_key(k) ==> ((
            #[trigger] self.download_tasks@[k]).holds_chapter_permit <==> self.download_tasks@[k].state
                is Downloading)
        &&& self.img_permits_free + self.img_permits_in_use == self.img_concurrency
    }

    /// A fresh manager: no tasks, all permits free.
    pub fn new(chapter_concurrency: u32, img_concurrency: u32) -> (m: DownloadManager)
        ensures
            m.wf(),
            m.chapter_concurrency == chapter_concurrency,
            m.img_concurrency == img_concurrency,
            m.chapter_permits_free == chapter_concurrency,
            m.img_permits_free == img_concurrency,
            m.download_tasks@ == Map::<i64, DownloadTask>::empty(),
            m.byte_per_sec == 0,
    {    broadcast use vstd::std_specs::hash::group_hash_axioms, vstd::set::group_set_axioms;


        let m = DownloadManager {
            chapter_concurrency,
            img_concurrency,
            chapter_permits_free: chapter_concurrency,
            img_permits_free: img_concurrency,
            img_permits_in_use: 0,
            byte_per_sec: 0,
            download_tasks: HashMap::new(),
        };
        proof {
            assert(spec_holders(m.download_tasks@) =~= Set::<i64>::empty());
        }
        m
    }

    /// Registers a download task for one chapter of a comic. The chapter
    /// must exist in the comic; a second submission while the existing task
    /// is still pending, downloading or paused is rejected as a conflict,
    /// and a finished task is silently replaced by the fresh one.
    pub fn create_download_task(&mut self, comic: &Comic, chapter_id: i64) -> (r: Result<
        (),
        TaskError,
    >)
        requires
            old(self).wf(),
        ensures
            final(self).wf(),
            ({
                let had_chapter = exists|i: int|
                    0 <= i < comic.chapter_infos@.len() && (#[trigger] comic.chapter_infos@[i]).chapter_id == chapter_id;
                let conflicting = old(self).download_tasks@.contains_key(chapter_id) && old(self).download_tasks@[chapter_id].state.is_active();
                &&& !had_chapter ==> r == Err::<(), TaskError>(TaskError::UnknownChapter) && *final(self) == *old(self)
                &&& had_chapter && conflicting ==> r == Err::<(), TaskError>(
                    TaskError::ConflictError,
                ) && *final(self) == *old(self)
                &&& had_chapter && !conflicting ==> r == Ok::<(), TaskError>(()) && *final(self)
                    == (DownloadManager {
                    download_tasks: final(self).download_tasks,
                    ..*old(self)
                }) && final(self).download_tasks@ == old(self).download_tasks@.insert(
                    chapter_id,
                    DownloadTask {
                        chapter_id,
                        state: DownloadTaskState::Pending,
                        downloaded_img_count: 0,
                        total_img_count: 0,
                        holds_chapter_permit: false,
                    },
                )
            }),
    {    broadcast use vstd::std_specs::hash::group_hash_axioms, vstd::set::group_set_axioms;


        if comic.find_chapter(chapter_id).is_none() {
            return Err(TaskError::UnknownChapter);
        }
        match self.download_tasks.get(&chapter_id) {
            Some(task) => {
                match task.state {
                    DownloadTaskState::Pending
                    | DownloadTaskState::Downloading
                    | DownloadTaskState::Paused => {
                        return Err(TaskError::ConflictError);
                    },
                    _ => {},
                }
            },
            None => {},
        }
        let ghost pre = self.download_tasks@;
        let task = DownloadTask::new(chapter_id);
        self.download_tasks.insert(chapter_id, task);
        proof {
            lemma_holders_finite(pre);
            lemma_holders_insert(pre, chapter_id, task);
            assert(!spec_holders(pre).contains(chapter_id));
            assert(spec_holders(pre).remove(chapter_id) =~= spec_holders(pre));
        }
        Ok(())
    }

    /// Pauses a chapter task. A held chapter permit is returned to the pool
    /// at once, without waiting for in-flight work.
    pub fn pause_download_task(&mut self, chapter_id: i64) -> (r: Result<(), TaskError>)
        requires
            old(self).wf(),
        ensures
            final(self).wf(),
            !old(self).download_tasks@.contains_key(chapter_id) ==> r == Err::<(), TaskError>(
                TaskError::NotFoundError,
            ) && *final(self) == *old(self),
            old(self).download_tasks@.contains_key(chapter_id) ==> {
                let t = old(self).download_tasks@[chapter_id];
                &&& r == Ok::<(), TaskError>(())
                &&& final(self).download_tasks@ == old(self).download_tasks@.insert(
                    chapter_id,
                    (DownloadTask { state: DownloadTaskState::Paused, holds_chapter_permit: false, ..t }),
                )
                &&& t.holds_chapter_permit ==> final(self).chapter_permits_free == old(self).chapter_permits_free + 1
                &&& !t.holds_chapter_permit ==> final(self).chapter_permits_free == old(self).chapter_permits_free
                &&& final(self).img_permits_free == old(self).img_permits_free
                &&& final(self).img_permits_in_use == old(self).img_permits_in_use
            },
    {
        self.transition_task(chapter_id, DownloadTaskState::Paused)
    }

    /// Re-queues a paused chapter task: it becomes pending again and will
    /// compete for a permit from scratch, with no priority over others.
    pub fn resume_download_task(&mut self, chapter_id: i64) -> (r: Result<(), TaskError>)
        requires
            old(self).wf(),
        ensures
            final(self).wf(),
            !old(self).download_tasks@.contains_key(chapter_id) ==> r == Err::<(), TaskError>(
                TaskError::NotFoundError,
            ) && *final(self) == *old(self),
            old(self).download_tasks@.contains_key(chapter_id) ==> {
                let t = old(self).download_tasks@[chapter_id];
                &&& r == Ok::<(), TaskError>(())
                &&& final(self).download_tasks@ == old(self).download_tasks@.insert(
                    chapter_id,
                    (DownloadTask {
                        state: DownloadTaskState::Pending,
                        holds_chapter_permit: false,
                        ..t
                    }),
                )
                &&& t.holds_chapter_permit ==> final(self).chapter_permits_free == old(self).chapter_permits_free + 1
                &&& !t.holds_chapter_permit ==> final(self).chapter_permits_free == old(self).chapter_permits_free
            },
    {
        self.transition_task(chapter_id, DownloadTaskState::Pending)
    }

    /// Cancels a chapter task: terminal, work is abandoned, the partial
    /// temp directory is left for later cleanup, and a held permit returns
    /// to the pool.
    pub fn cancel_download_task(&mut self, chapter_id: i64) -> (r: Result<(), TaskError>)
        requires
            old(self).wf(),
        ensures
            final(self).wf(),
            !old(self).download_tasks@.contains_key(chapter_id) ==> r == Err::<(), TaskError>(
                TaskError::NotFoundError,
            ) && *final(self) == *old(self),
            old(self).download_tasks@.contains_key(chapter_id) ==> {
                let t = old(self).download_tasks@[chapter_id];
                &&& r == Ok::<(), TaskError>(())
                &&& final(self).download_tasks@ == old(self).download_tasks@.insert(
                    chapter_id,
                    (DownloadTask {
                        state: DownloadTaskState::Cancelled,
                        holds_chapter_permit: false,
                        ..t
                    }),
                )
                &&& t.holds_chapter_permit ==> final(self).chapter_permits_free == old(self).chapter_permits_free + 1
                &&& !t.holds_chapter_permit ==> final(self).chapter_permits_free == old(self).chapter_permits_free
            },
    {
        self.transition_task(chapter_id, DownloadTaskState::Cancelled)
    }

    /// Moves a registered task to a state that holds no permit, returning a
    /// held chapter permit to the pool at once.
    fn transition_task(&mut self, chapter_id: i64, state: DownloadTaskState) -> (r: Result<
        (),
        TaskError,
    >)
        requires
            old(self).wf(),
            !(state is Downloading),
        ensures
            final(self).wf(),
            !old(self).download_tasks@.contains_key(chapter_id) ==> r == Err::<(), TaskError>(
                TaskError::NotFoundError,
            ) && *final(self) == *old(self),
            old(self).download_tasks@.contains_key(chapter_id) ==> {
                let t = old(self).download_tasks@[chapter_id];
                &&& r == Ok::<(), TaskError>(())
                &&& final(self).download_tasks@ == old(self).download_tasks@.insert(
                    chapter_id,
                    (DownloadTask { state, holds_chapter_permit: false, ..t }),
                )
                &&& t.holds_chapter_permit ==> final(self).chapter_permits_free == old(self).chapter_permits_free + 1
                &&& !t.holds_chapter_permit ==> final(self).chapter_permits_free == old(self).chapter_permits_free
                &&& final(self).chapter_concurrency == old(self).chapter_concurrency
                &&& final(self).img_concurrency == old(self).img_concurrency
                &&& final(self).img_permits_free == old(self).img_permits_free
                &&& final(self).img_permits_in_use == old(self).img_permits_in_use
                &&& final(self).byte_per_sec == old(self).byte_per_sec
            },
    {    broadcast use vstd::std_specs::hash::group_hash_axioms, vstd::set::group_set_axioms;


        let task = match self.download_tasks.get(&chapter_id) {
            Some(task) => *task,
            None => {
                return Err(TaskError::NotFoundError);
            },
        };
        let ghost pre = self.download_tasks@;
        let new_task = DownloadTask { state, holds_chapter_permit: false, ..task };
        self.download_tasks.insert(chapter_id, new_task);
        proof {
            lemma_holders_finite(pre);
            lemma_holders_insert(pre, chapter_id, new_task);
        }
        if task.holds_chapter_permit {
            proof {
                assert(spec_holders(pre).contains(chapter_id));
            }
            self.chapter_permits_free = self.chapter_permits_free + 1;
        } else {
            proof {
                assert(!spec_holders(pre).contains(chapter_id));
                assert(spec_holders(pre).remove(chapter_id) =~= spec_holders(pre));
            }
        }
        Ok(())
    }

    /// Tries to move a pending chapter task into the downloading state by
    /// taking one chapter permit. Nothing happens unless the task is still
    /// pending at acquisition time and a permit is free.
    pub fn try_start_chapter(&mut self, chapter_id: i64) -> (r: bool)
        requires
            old(self).wf(),
        ensures
            final(self).wf(),
            r <==> (old(self).download_tasks@.contains_key(chapter_id) && old(self).download_tasks@[chapter_id].state is Pending && old(self).chapter_permits_free > 0),
            r ==> final(self).download_tasks@ == old(self).download_tasks@.insert(
                chapter_id,
                (DownloadTask {
                    state: DownloadTaskState::Downloading,
                    holds_chapter_permit: true,
                    ..old(self).download_tasks@[chapter_id]
                }),
            ) && final(self).chapter_permits_free == old(self).chapter_permits_free - 1,
            !r ==> *final(self) == *old(self),
    {    broadcast use vstd::std_specs::hash::group_hash_axioms, vstd::set::group_set_axioms;


        let task = match self.download_tasks.get(&chapter_id) {
            Some(task) => *task,
            None => {
                return false;
            },
        };
        match task.state {
            DownloadTaskState::Pending => {},
            _ => {
                return false;
            },
        }
        if self.chapter_permits_free == 0 {
            return false;
        }
        let ghost pre = self.download_tasks@;
        let new_task = DownloadTask {
            state: DownloadTaskState::Downloading,
            holds_chapter_permit: true,
            ..task
        };
        self.download_tasks.insert(chapter_id, new_task);
        self.chapter_permits_free = self.chapter_permits_free - 1;
        proof {
            lemma_holders_finite(pre);
            lemma_holders_insert(pre, chapter_id, new_task);
            assert(!spec_holders(pre).contains(chapter_id));
        }
        true
    }

    /// Adds a chapter's freshly discovered image count to its total.
    pub fn record_total_imgs(&mut self, chapter_id: i64, count: u32) -> (r: Result<(), TaskError>)
        requires
            old(self).wf(),
            old(self).download_tasks@.contains_key(chapter_id) ==> old(self).download_tasks@[chapter_id].total_img_count + count <= u32::MAX,
        ensures
            final(self).wf(),
            !old(self).download_tasks@.contains_key(chapter_id) ==> r == Err::<(), TaskError>(
                TaskError::NotFoundError,
            ) && *final(self) == *old(self),
            old(self).download_tasks@.contains_key(chapter_id) ==> r == Ok::<(), TaskError>(())
                && final(self).download_tasks@ == old(self).download_tasks@.insert(
                chapter_id,
                (DownloadTask {
                    total_img_count: (old(self).download_tasks@[chapter_id].total_img_count
                        + count) as u32,
                    ..old(self).download_tasks@[chapter_id]
                }),
            ) && final(self).chapter_permits_free == old(self).chapter_permits_free,
    {    broadcast use vstd::std_specs::hash::group_hash_axioms, vstd::set::group_set_axioms;


        let task = match self.download_tasks.get(&chapter_id) {
            Some(task) => *task,
            None => {
                return Err(TaskError::NotFoundError);
            },
        };
        let ghost pre = self.download_tasks@;
        let new_task = DownloadTask { total_img_count: task.total_img_count + count, ..task };
        self.download_tasks.insert(chapter_id, new_task);
        proof {
            lemma_holders_finite(pre);
            lemma_holders_insert(pre, chapter_id, new_task);
            if new_task.holds_chapter_permit {
                assert(spec_holders(pre).insert(chapter_id) =~= spec_holders(pre));
            } else {
                assert(spec_holders(pre).remove(chapter_id) =~= spec_holders(pre));
            }
        }
        Ok(())
    }

    /// Counts one image of a chapter as downloaded. The counter only grows
    /// and never passes the chapter's total.
    pub fn record_img_downloaded(&mut self, chapter_id: i64) -> (r: Result<(), TaskError>)
        requires
            old(self).wf(),
            old(self).download_tasks@.contains_key(chapter_id) ==> old(self).download_tasks@[chapter_id].downloaded_img_count < old(self).download_tasks@[chapter_id].total_img_count,
        ensures
            final(self).wf(),
            !old(self).download_tasks@.contains_key(chapter_id) ==> r == Err::<(), TaskError>(
                TaskError::NotFoundError,
            ) && *final(self) == *old(self),
            old(self).download_tasks@.contains_key(chapter_id) ==> r == Ok::<(), TaskError>(())
                && final(self).download_tasks@ == old(self).download_tasks@.insert(
                chapter_id,
                (DownloadTask {
                    downloaded_img_count: (old(self).download_tasks@[chapter_id].downloaded_img_count
                        + 1) as u32,
                    ..old(self).download_tasks@[chapter_id]
                }),
            ) && final(self).chapter_permits_free == old(self).chapter_permits_free,
    {    broadcast use vstd::std_specs::hash::group_hash_axioms, vstd::set::group_set_axioms;


        let task = match self.download_tasks.get(&chapter_id) {
            Some(task) => *task,
            None => {
                return Err(TaskError::NotFoundError);
            },
        };
        let ghost pre = self.download_tasks@;
        let new_task = DownloadTask {
            downloaded_img_count: task.downloaded_img_count + 1,
            ..task
        };
        self.download_tasks.insert(chapter_id, new_task);
        proof {
            lemma_holders_finite(pre);
            lemma_holders_insert(pre, chapter_id, new_task);
            if new_task.holds_chapter_permit {
                assert(spec_holders(pre).insert(chapter_id) =~= spec_holders(pre));
            } else {
                assert(spec_holders(pre).remove(chapter_id) =~= spec_holders(pre));
            }
        }
        Ok(())
    }

    /// Settles a chapter once every image task has finished. Every image
    /// downloaded means the temp directory may be committed: the caller
    /// must attempt the rename and then record its result with
    /// `complete_chapter` or `fail_chapter`; the task stays as it is until
    /// then. Any shortfall fails the chapter at once, leaves the temp
    /// directory in place for a later retry, and returns the chapter
    /// permit to the pool.
    pub fn settle_chapter(&mut self, chapter_id: i64) -> (r: Result<SettleOutcome, TaskError>)
        requires
            old(self).wf(),
        ensures
            final(self).wf(),
            !old(self).download_tasks@.contains_key(chapter_id) ==> r == Err::<
                SettleOutcome,
                TaskError,
            >(TaskError::NotFoundError) && *final(self) == *old(self),
            old(self).download_tasks@.contains_key(chapter_id) ==> {
                let t = old(self).download_tasks@[chapter_id];
                let complete = t.downloaded_img_count == t.total_img_count;
                &&& complete ==> r == Ok::<SettleOutcome, TaskError>(SettleOutcome::Commit)
                    && *final(self) == *old(self)
                &&& !complete ==> r == Ok::<SettleOutcome, TaskError>(SettleOutcome::Incomplete)
                    && final(self).download_tasks@ == old(self).download_tasks@.insert(
                    chapter_id,
                    (DownloadTask {
                        state: DownloadTaskState::Failed,
                        holds_chapter_permit: false,
                        ..t
                    }),
                )
                &&& !complete && t.holds_chapter_permit ==> final(self).chapter_permits_free == old(
                    self,
                ).chapter_permits_free + 1
                &&& !complete && !t.holds_chapter_permit ==> final(self).chapter_permits_free
                    == old(self).chapter_permits_free
            },
    {
        broadcast use vstd::std_specs::hash::group_hash_axioms, vstd::set::group_set_axioms;

        let task = match self.download_tasks.get(&chapter_id) {
            Some(task) => *task,
            None => {
                return Err(TaskError::NotFoundError);
            },
        };
        if task.downloaded_img_count == task.total_img_count {
            return Ok(SettleOutcome::Commit);
        }
        let ghost pre = self.download_tasks@;
        let new_task = DownloadTask {
            state: DownloadTaskState::Failed,
            holds_chapter_permit: false,
            ..task
        };
        self.download_tasks.insert(chapter_id, new_task);
        proof {
            lemma_holders_finite(pre);
            lemma_holders_insert(pre, chapter_id, new_task);
        }
        if task.holds_chapter_permit {
            proof {
                assert(spec_holders(pre).contains(chapter_id));
            }
            self.chapter_permits_free = self.chapter_permits_free + 1;
        } else {
            proof {
                assert(!spec_holders(pre).contains(chapter_id));
                assert(spec_holders(pre).remove(chapter_id) =~= spec_holders(pre));
            }
        }
        Ok(SettleOutcome::Incomplete)
    }

    /// Records that a settled chapter's temp directory was renamed to its
    /// final name: the chapter completes and its permit returns to the
    /// pool. A chapter whose counts do not match cannot complete.
    pub fn complete_chapter(&mut self, chapter_id: i64) -> (r: Result<(), TaskError>)
        requires
            old(self).wf(),
        ensures
            final(self).wf(),
            !old(self).download_tasks@.contains_key(chapter_id) ==> r == Err::<(), TaskError>(
                TaskError::NotFoundError,
            ) && *final(self) == *old(self),
            old(self).download_tasks@.contains_key(chapter_id) ==> {
                let t = old(self).download_tasks@[chapter_id];
                &&& t.downloaded_img_count != t.total_img_count ==> r == Err::<(), TaskError>(
                    TaskError::IncompleteChapter,
                ) && *final(self) == *old(self)
                &&& t.downloaded_img_count == t.total_img_count ==> {
                    &&& r == Ok::<(), TaskError>(())
                    &&& final(self).download_tasks@ == old(self).download_tasks@.insert(
                        chapter_id,
                        (DownloadTask {
                            state: DownloadTaskState::Completed,
                            holds_chapter_permit: false,
                            ..t
                        }),
                    )
                    &&& t.holds_chapter_permit ==> final(self).chapter_permits_free == old(
                        self,
                    ).chapter_permits_free + 1
                    &&& !t.holds_chapter_permit ==> final(self).chapter_permits_free == old(
                        self,
                    ).chapter_permits_free
                }
            },
    {
        broadcast use vstd::std_specs::hash::group_hash_axioms, vstd::set::group_set_axioms;

        let task = match self.download_tasks.get(&chapter_id) {
            Some(task) => *task,
            None => {
                return Err(TaskError::NotFoundError);
            },
        };
        if task.downloaded_img_count != task.total_img_count {
            return Err(TaskError::IncompleteChapter);
        }
        let ghost pre = self.download_tasks@;
        let new_task = DownloadTask {
            state: DownloadTaskState::Completed,
            holds_chapter_permit: false,
            ..task
        };
        self.download_tasks.insert(chapter_id, new_task);
        proof {
            lemma_holders_finite(pre);
            lemma_holders_insert(pre, chapter_id, new_task);
        }
        if task.holds_chapter_permit {
            proof {
                assert(spec_holders(pre).contains(chapter_id));
            }
            self.chapter_permits_free = self.chapter_permits_free + 1;
        } else {
            proof {
                assert(!spec_holders(pre).contains(chapter_id));
                assert(spec_holders(pre).remove(chapter_id) =~= spec_holders(pre));
            }
        }
        Ok(())
    }

    /// Fails a chapter outright, as when its image-URL list cannot be
    /// fetched or its directories cannot be made; a held permit returns to
    /// the pool.
    pub fn fail_chapter(&mut self, chapter_id: i64) -> (r: Result<(), TaskError>)
        requires
            old(self).wf(),
        ensures
            final(self).wf(),
            !old(self).download_tasks@.contains_key(chapter_id) ==> r == Err::<(), TaskError>(
                TaskError::NotFoundError,
            ) && *final(self) == *old(self),
            old(self).download_tasks@.contains_key(chapter_id) ==> {
                let t = old(self).download_tasks@[chapter_id];
                &&& r == Ok::<(), TaskError>(())
                &&& final(self).download_tasks@ == old(self).download_tasks@.insert(
                    chapter_id,
                    (DownloadTask {
                        state: DownloadTaskState::Failed,
                        holds_chapter_permit: false,
                        ..t
                    }),
                )
                &&& t.holds_chapter_permit ==> final(self).chapter_permits_free == old(self).chapter_permits_free + 1
                &&& !t.holds_chapter_permit ==> final(self).chapter_permits_free == old(self).chapter_permits_free
            },
    {
        self.transition_task(chapter_id, DownloadTaskState::Failed)
    }

    /// Tries to take one image-download slot.
    pub fn try_acquire_img_permit(&mut self) -> (r: bool)
        requires
            old(self).wf(),
        ensures
            final(self).wf(),
            r <==> old(self).img_permits_free > 0,
            r ==> *final(self) == (DownloadManager {
                img_permits_free: (old(self).img_permits_free - 1) as u32,
                img_permits_in_use: (old(self).img_permits_in_use + 1) as u32,
                ..*old(self)
            }),
            !r ==> *final(self) == *old(self),
    {
        if self.img_permits_free == 0 {
            return false;
        }
        self.img_permits_free = self.img_permits_free - 1;
        self.img_permits_in_use = self.img_permits_in_use + 1;
        true
    }

    /// Returns one image-download slot to the pool; the slot is released as
    /// soon as the image's bytes are in memory, before any decoding work.
    pub fn release_img_permit(&mut self)
        requires
            old(self).wf(),
        ensures
            final(self).wf(),
            old(self).img_permits_in_use > 0 ==> *final(self) == (DownloadManager {
                img_permits_free: (old(self).img_permits_free + 1) as u32,
                img_permits_in_use: (old(self).img_permits_in_use - 1) as u32,
                ..*old(self)
            }),
            old(self).img_permits_in_use == 0 ==> *final(self) == *old(self),
    {
        if self.img_permits_in_use > 0 {
            self.img_permits_in_use = self.img_permits_in_use - 1;
            self.img_permits_free = self.img_permits_free + 1;
        }
    }


    /// The progress notification for one chapter task, as the progress
    /// sink receives it; nothing for an unknown chapter.
    pub fn download_task_update_event(&self, chapter_id: i64) -> (r: Option<DownloadTaskEvent>)
        ensures
            r is Some <==> self.download_tasks@.contains_key(chapter_id),
            r is Some ==> ({
                let t = self.download_tasks@[chapter_id];
                r->0 matches DownloadTaskEvent::Update {
                    chapter_id: cid,
                    state,
                    downloaded_img_count,
                    total_img_count,
                } && cid == chapter_id && state == t.state && downloaded_img_count
                    == t.downloaded_img_count && total_img_count == t.total_img_count
            }),
    {
        broadcast use vstd::std_specs::hash::group_hash_axioms;

        match self.download_tasks.get(&chapter_id) {
            Some(task) => Some(
                DownloadTaskEvent::Update {
                    chapter_id,
                    state: task.state,
                    downloaded_img_count: task.downloaded_img_count,
                    total_img_count: task.total_img_count,
                },
            ),
            None => None,
        }
    }

    /// Adds downloaded bytes to the rolling throughput counter.
    pub fn record_bytes(&mut self, n: u64)
        requires
            old(self).wf(),
        ensures
            final(self).wf(),
            *final(self) == (DownloadManager {
                byte_per_sec: if old(self).byte_per_sec + n <= u64::MAX {
                    (old(self).byte_per_sec + n) as u64
                } else {
                    u64::MAX
                },
                ..*old(self)
            }),
    {
        self.byte_per_sec = self.byte_per_sec.saturating_add(n);
    }

    /// Takes and resets the rolling throughput counter, as the per-second
    /// speed reporter does.
    pub fn take_byte_per_sec(&mut self) -> (r: u64)
        requires
            old(self).wf(),
        ensures
            final(self).wf(),
            r == old(self).byte_per_sec,
            *final(self) == (DownloadManager { byte_per_sec: 0, ..*old(self) }),
    {
        let r = self.byte_per_sec;
        self.byte_per_sec = 0;
        r
    }
}

/// The RGB bytes of a pixel buffer, three per pixel.
pub open spec fn raw_of(pixels: Seq<Pixel>) -> Seq<u8> {
    Seq::new(
        3 * pixels.len(),
        |j: int|
            if j % 3 == 0 {
                pixels[j / 3].r
            } else if j % 3 == 1 {
                pixels[j / 3].g
            } else {
                pixels[j / 3].b
            },
    )
}

/// The pixel buffer read from RGB bytes, three per pixel.
pub open spec fn pixels_of_raw(raw: Seq<u8>) -> Seq<Pixel> {
    Seq::new(
        raw.len() / 3,
        |i: int| Pixel { r: raw[3 * i], g: raw[3 * i + 1], b: raw[3 * i + 2] },
    )
}

/// Reading pixels back from their RGB bytes recovers the pixels.
pub proof fn lemma_pixels_raw_inverse(pixels: Seq<Pixel>)
    ensures
        pixels_of_raw(raw_of(pixels)) == pixels,
{
    let raw = raw_of(pixels);
    assert(raw.len() == 3 * pixels.len());
    assert((3 * pixels.len()) / 3 == pixels.len()) by (nonlinear_arith);
    assert forall|i: int| 0 <= i < pixels.len() implies pixels_of_raw(raw)[i] == pixels[i] by {
        assert((3 * i) % 3 == 0 && (3 * i) / 3 == i && (3 * i + 1) % 3 == 1 && (3 * i + 1) / 3
            == i && (3 * i + 2) % 3 == 2 && (3 * i + 2) / 3 == i) by (nonlinear_arith)
            requires
                0 <= i,
        ;
    }
    assert(pixels_of_raw(raw) =~= pixels);
}

/// What image::load_from_memory, converted to eight-bit RGB, decodes a byte
/// stream to: width, height and the raw RGB buffer, or nothing when the
/// bytes are not a readable image.
pub uninterp spec fn decoded_rgb_of(data: Seq<u8>) -> Option<(u32, u32, Seq<u8>)>;

/// Relies on image::load_from_memory and DynamicImage::to_rgb8: decoding
/// succeeds on a readable image and yields a width-by-height RGB buffer,
/// depending on the bytes alone.
#[verifier::external_body]
fn decode_rgb_image(data: &[u8]) -> (r: Option<RgbImage>)
    ensures
        r is Some <==> decoded_rgb_of(data@) is Some,
        r is Some ==> {
            let d = decoded_rgb_of(data@)->0;
            &&& r->0.width == d.0
            &&& r->0.height == d.1
            &&& r->0.wf()
            &&& raw_of(r->0.pixels@) == d.2
        },
{
    let img = match image::load_from_memory(data) {
        Ok(i) => i.to_rgb8(),
        Err(_) => return None,
    };
    let (width, height) = img.dimensions();
    let raw = img.into_raw();
    let mut pixels = Vec::with_capacity(raw.len() / 3);
    for ch in raw.chunks_exact(3) {
        pixels.push(Pixel { r: ch[0], g: ch[1], b: ch[2] });
    }
    Some(RgbImage { width, height, pixels })
}

/// What the image crate's JPEG encoder writes for an RGB buffer.
pub uninterp spec fn jpeg_encoding_of(w: u32, h: u32, raw: Seq<u8>) -> Option<Seq<u8>>;

/// What the image crate's PNG encoder writes for an RGB buffer at the
/// strongest compression level.
pub uninterp spec fn png_best_encoding_of(w: u32, h: u32, raw: Seq<u8>) -> Option<Seq<u8>>;

/// What the image crate's WebP encoder writes for an RGB buffer.
pub uninterp spec fn webp_encoding_of(w: u32, h: u32, raw: Seq<u8>) -> Option<Seq<u8>>;

/// Relies on ImageBuffer::write_to with ImageFormat::Jpeg: the output
/// depends on the dimensions and pixel bytes alone.
#[verifier::external_body]
fn encode_jpeg(img: &RgbImage) -> (r: Option<Vec<u8>>)
    requires
        img.wf(),
    ensures
        r is Some <==> jpeg_encoding_of(img.width, img.height, raw_of(img.pixels@)) is Some,
        r is Some ==> r->0@ == jpeg_encoding_of(img.width, img.height, raw_of(img.pixels@))->0,
{
    let raw: Vec<u8> = img.pixels.iter().flat_map(|p| [p.r, p.g, p.b]).collect();
    let buf = image::RgbImage::from_raw(img.width, img.height, raw)?;
    let mut out = Vec::new();
    buf.write_to(&mut std::io::Cursor::new(&mut out), image::ImageFormat::Jpeg).ok()?;
    Some(out)
}

/// Relies on PngEncoder::new_with_quality at CompressionType::Best and
/// ImageBuffer::write_with_encoder: the output depends on the dimensions
/// and pixel bytes alone.
#[verifier::external_body]
fn encode_png_best(img: &RgbImage) -> (r: Option<Vec<u8>>)
    requires
        img.wf(),
    ensures
        r is Some <==> png_best_encoding_of(img.width, img.height, raw_of(img.pixels@)) is Some,
        r is Some ==> r->0@ == png_best_encoding_of(img.width, img.height, raw_of(img.pixels@))->0,
{
    let raw: Vec<u8> = img.pixels.iter().flat_map(|p| [p.r, p.g, p.b]).collect();
    let buf = image::RgbImage::from_raw(img.width, img.height, raw)?;
    let mut out = Vec::new();
    let encoder = image::codecs::png::PngEncoder::new_with_quality(
        std::io::Cursor::new(&mut out),
        image::codecs::png::CompressionType::Best,
        image::codecs::png::FilterType::default(),
    );
    buf.write_with_encoder(encoder).ok()?;
    Some(out)
}

/// Relies on ImageBuffer::write_to with ImageFormat::WebP: the output
/// depends on the dimensions and pixel bytes alone.
#[verifier::external_body]
fn encode_webp(img: &RgbImage) -> (r: Option<Vec<u8>>)
    requires
        img.wf(),
    ensures
        r is Some <==> webp_encoding_of(img.width, img.height, raw_of(img.pixels@)) is Some,
        r is Some ==> r->0@ == webp_encoding_of(img.width, img.height, raw_of(img.pixels@))->0,
{
    let raw: Vec<u8> = img.pixels.iter().flat_map(|p| [p.r, p.g, p.b]).collect();
    let buf = image::RgbImage::from_raw(img.width, img.height, raw)?;
    let mut out = Vec::new();
    buf.write_to(&mut std::io::Cursor::new(&mut out), image::ImageFormat::WebP).ok()?;
    Some(out)
}

/// The pixel buffer a downloaded picture must hold after processing: the
/// decoded pixels, reordered into bands when a block count applies.
pub open spec fn spec_processed_pixels(w: u32, h: u32, raw: Seq<u8>, block_num: u32) -> Seq<
    Pixel,
> {
    if block_num == 0 {
        pixels_of_raw(raw)
    } else {
        spec_stitch(w as int, h as int, pixels_of_raw(raw), block_num as int)
    }
}

/// What the whole picture pipeline returns for downloaded bytes: the bytes
/// decoded, descrambled when a block count applies, and re-encoded in the
/// configured format.
pub open spec fn spec_processed_img(
    data: Seq<u8>,
    format: crate::types::DownloadFormat,
    block_num: u32,
) -> Result<Seq<u8>, crate::errors::ImageError> {
    if decoded_rgb_of(data) is None {
        Err(crate::errors::ImageError::DecodeError)
    } else {
        let d = decoded_rgb_of(data)->0;
        let out = raw_of(spec_processed_pixels(d.0, d.1, d.2, block_num));
        let enc = match format {
            crate::types::DownloadFormat::Jpeg => jpeg_encoding_of(d.0, d.1, out),
            crate::types::DownloadFormat::Png => png_best_encoding_of(d.0, d.1, out),
            crate::types::DownloadFormat::Webp => webp_encoding_of(d.0, d.1, out),
        };
        if enc is None {
            Err(crate::errors::ImageError::EncodeError)
        } else {
            Ok(enc->0)
        }
    }
}

/// Turns one downloaded image into the bytes written to disk: decode,
/// reorder the row bands when the block count is not zero, and encode to
/// the configured format. This is the computation of the image task; the
/// network read before it and the file write after it happen at the
/// caller's edge.
pub fn process_img(data: &[u8], download_format: crate::types::DownloadFormat, block_num: u32) -> (r:
    Result<Vec<u8>, crate::errors::ImageError>)
    ensures
        r is Ok <==> spec_processed_img(data@, download_format, block_num) is Ok,
        r is Ok ==> r->Ok_0@ == spec_processed_img(data@, download_format, block_num)->Ok_0,
        r is Err ==> r->Err_0 == spec_processed_img(data@, download_format, block_num)->Err_0,
{
    let img = match decode_rgb_image(data) {
        Some(i) => i,
        None => {
            return Err(crate::errors::ImageError::DecodeError);
        },
    };
    let ghost d = decoded_rgb_of(data@)->0;
    proof {
        lemma_pixels_raw_inverse(img.pixels@);
    }
    let dst = if block_num == 0 {
        img
    } else {
        stitch_img(&img, block_num)
    };
    proof {
        assert(dst.pixels@ == spec_processed_pixels(d.0, d.1, d.2, block_num));
    }
    let encoded = match download_format {
        crate::types::DownloadFormat::Jpeg => encode_jpeg(&dst),
        crate::types::DownloadFormat::Png => encode_png_best(&dst),
        crate::types::DownloadFormat::Webp => encode_webp(&dst),
    };
    match encoded {
        Some(v) => Ok(v),
        None => Err(crate::errors::ImageError::EncodeError),
    }
}

/// The index of the last dot in a file name, if any.
pub open spec fn spec_last_dot(name: Seq<char>) -> Option<int>
    decreases name.len(),
{
    if name.len() == 0 {
        None
    } else if name.last() == '.' {
        Some(name.len() - 1)
    } else {
        spec_last_dot(name.drop_last())
    }
}

proof fn lemma_last_dot_scan(s: Seq<char>, k: int)
    requires
        0 <= k <= s.len(),
        forall|j: int| k <= j < s.len() ==> s[j] != '.',
    ensures
        spec_last_dot(s) == spec_last_dot(s.take(k)),
    decreases s.len(),
{
    if k == s.len() {
        assert(s.take(k) =~= s);
    } else {
        assert(s.last() != '.');
        let b = s.drop_last();
        assert(b.take(k) =~= s.take(k));
        lemma_last_dot_scan(b, k);
    }
}

/// Finds the last dot in a file name.
fn find_last_dot(v: &Vec<char>) -> (r: Option<usize>)
    ensures
        r is Some <==> spec_last_dot(v@) is Some,
        r is Some ==> Some(r->0 as int) == spec_last_dot(v@) && r->0 < v@.len(),
{
    let mut k = v.len();
    while k > 0
        invariant
            k <= v@.len(),
            forall|j: int| k <= j < v@.len() ==> v@[j] != '.',
        decreases k,
    {
        if v[k - 1] == '.' {
            proof {
                lemma_last_dot_scan(v@, k as int);
                assert(v@.take(k as int).last() == v@[k - 1]);
            }
            return Some(k - 1);
        }
        k = k - 1;
    }
    proof {
        lemma_last_dot_scan(v@, 0);
        assert(v@.take(0) =~= Seq::<char>::empty());
    }
    None
}

/// An extension that names the WebP format, compared without regard to
/// ASCII case.
pub open spec fn is_webp_ext(ext: Seq<char>) -> bool {
    &&& ext.len() == 4
    &&& (ext[0] == 'w' || ext[0] == 'W')
    &&& (ext[1] == 'e' || ext[1] == 'E')
    &&& (ext[2] == 'b' || ext[2] == 'B')
    &&& (ext[3] == 'p' || ext[3] == 'P')
}

/// The stem of a file name whose extension names the WebP format; a name
/// without a dot, a hidden name whose only dot leads it, or another
/// extension yields nothing.
pub open spec fn spec_webp_stem(name: Seq<char>) -> Option<Seq<char>> {
    match spec_last_dot(name) {
        None => None,
        Some(i) => if i == 0 {
            None
        } else if is_webp_ext(name.skip(i + 1)) {
            Some(name.take(i))
        } else {
            None
        },
    }
}

/// The download URL of one chapter image on the image CDN.
pub open spec fn spec_img_url(chapter_id: int, filename: Seq<char>) -> Seq<char> {
    "https://"@ + IMAGE_DOMAIN@ + "/media/photos/"@ + utils::spec_i64_dec_chars(chapter_id)
        + "/"@ + filename
}

/// The download work list of a chapter: each WebP image becomes its CDN
/// URL paired with the band count computed from the scramble id, the
/// chapter id and the image's stem; other files are skipped.
pub open spec fn spec_urls_with_block_num(
    scramble_id: int,
    chapter_id: int,
    images: Seq<Seq<char>>,
) -> Seq<(Seq<char>, int)>
    decreases images.len(),
{
    if images.len() == 0 {
        Seq::empty()
    } else {
        let prefix = spec_urls_with_block_num(scramble_id, chapter_id, images.drop_last());
        match spec_webp_stem(images.last()) {
            Some(stem) => prefix.push(
                (
                    spec_img_url(chapter_id, images.last()),
                    spec_block_num(scramble_id, chapter_id, stem),
                ),
            ),
            None => prefix,
        }
    }
}

/// The stem of a WebP-named file, or nothing for any other name.
fn webp_stem_of(chars: &Vec<char>) -> (r: Option<Vec<char>>)
    ensures
        r is Some <==> spec_webp_stem(chars@) is Some,
        r is Some ==> Some(r->0@) == spec_webp_stem(chars@),
{
    let d = match find_last_dot(chars) {
        Some(d) => d,
        None => {
            return None;
        },
    };
    if d == 0 {
        return None;
    }
    let n = chars.len();
    if n - d != 5 {
        proof {
            assert(chars@.skip(d + 1).len() != 4);
        }
        return None;
    }
    let c1 = chars[d + 1];
    let c2 = chars[d + 2];
    let c3 = chars[d + 3];
    let c4 = chars[d + 4];
    proof {
        assert(chars@.skip(d + 1).len() == 4);
        assert(chars@.skip(d + 1)[0] == chars@[d + 1]);
        assert(chars@.skip(d + 1)[1] == chars@[d + 2]);
        assert(chars@.skip(d + 1)[2] == chars@[d + 3]);
        assert(chars@.skip(d + 1)[3] == chars@[d + 4]);
    }
    if (c1 == 'w' || c1 == 'W') && (c2 == 'e' || c2 == 'E') && (c3 == 'b' || c3 == 'B') && (c4
        == 'p' || c4 == 'P') {
        let mut stem_chars: Vec<char> = Vec::new();
        let mut k: usize = 0;
        while k < d
            invariant
                k <= d <= chars@.len(),
                stem_chars@ == chars@.take(d as int).take(k as int),
            decreases d - k,
        {
            stem_chars.push(chars[k]);
            k += 1;
            assert(stem_chars@ =~= chars@.take(d as int).take(k as int));
        }
        assert(stem_chars@ =~= chars@.take(d as int));
        Some(stem_chars)
    } else {
        proof {
            assert(!is_webp_ext(chars@.skip(d + 1)));
        }
        None
    }
}

/// Builds one image's CDN URL.
fn build_img_url(chapter_id: i64, filename: &str) -> (r: String)
    ensures
        r@ == spec_img_url(chapter_id as int, filename@),
{
    let mut v = utils::chars_of("https://");
    let mut part = utils::chars_of(IMAGE_DOMAIN);
    v.append(&mut part);
    let mut part = utils::chars_of("/media/photos/");
    v.append(&mut part);
    let id_string = utils::i64_to_dec_string(chapter_id);
    let mut part = utils::chars_of(id_string.as_str());
    v.append(&mut part);
    v.push('/');
    let mut part = utils::chars_of(filename);
    v.append(&mut part);
    proof {
        reveal_strlit("/");
        assert(v@ =~= spec_img_url(chapter_id as int, filename@));
    }
    utils::string_from_chars(&v)
}

/// Builds a chapter's download work list from the image names the remote
/// returned: every WebP image is paired with its URL and its band count;
/// anything else is skipped.
pub fn get_urls_with_block_num(scramble_id: i64, chapter_id: i64, images: &Vec<String>) -> (r: Vec<
    (String, u32),
>)
    ensures
        r@.map_values(|p: (String, u32)| (p.0@, p.1 as int)) == spec_urls_with_block_num(
            scramble_id as int,
            chapter_id as int,
            images@.map_values(|s: String| s@),
        ),
{
    let ghost views = images@.map_values(|s: String| s@);
    let mut r: Vec<(String, u32)> = Vec::new();
    let mut i: usize = 0;
    while i < images.len()
        invariant
            views == images@.map_values(|s: String| s@),
            i <= images@.len(),
            r@.map_values(|p: (String, u32)| (p.0@, p.1 as int)) == spec_urls_with_block_num(
                scramble_id as int,
                chapter_id as int,
                views.take(i as int),
            ),
        decreases images@.len() - i,
    {
        let name = images[i].as_str();
        let chars = utils::chars_of(name);
        match webp_stem_of(&chars) {
            Some(stem_chars) => {
                let stem = utils::string_from_chars(&stem_chars);
                let block_num = calculate_block_num(scramble_id, chapter_id, stem.as_str());
                let url = build_img_url(chapter_id, name);
                r.push((url, block_num));
            },
            None => {},
        }
        proof {
            assert(views.take(i + 1).drop_last() =~= views.take(i as int));
            assert(views.take(i + 1).last() == views[i as int]);
            assert(views[i as int] == name@);
            assert(r@.map_values(|p: (String, u32)| (p.0@, p.1 as int)) =~= spec_urls_with_block_num(
                scramble_id as int,
                chapter_id as int,
                views.take(i + 1),
            ));
        }
        i += 1;
    }
    assert(views.take(images@.len() as int) =~= views);
    r
}

/// The file name an image is saved under: its one-based position padded to
/// three digits, with the configured format's extension.
pub open spec fn spec_img_save_name(index: int, format: crate::types::DownloadFormat) -> Seq<
    char,
> {
    let digits = if index >= 100 {
        utils::spec_dec_chars(index as nat)
    } else if index >= 10 {
        seq!['0'] + utils::spec_dec_chars(index as nat)
    } else {
        seq!['0', '0'] + utils::spec_dec_chars(index as nat)
    };
    let ext = match format {
        crate::types::DownloadFormat::Jpeg => "jpg"@,
        crate::types::DownloadFormat::Png => "png"@,
        crate::types::DownloadFormat::Webp => "webp"@,
    };
    digits + seq!['.'] + ext
}

/// Builds the save name of the image at a one-based position.
pub fn img_save_name(index: u32, format: crate::types::DownloadFormat) -> (r: String)
    ensures
        r@ == spec_img_save_name(index as int, format),
{
    let mut v: Vec<char> = Vec::new();
    if index < 10 {
        v.push('0');
        v.push('0');
    } else if index < 100 {
        v.push('0');
    }
    let mut digits = utils::u64_to_dec_chars(index as u64);
    v.append(&mut digits);
    v.push('.');
    let mut ext = utils::chars_of(format.extension());
    v.append(&mut ext);
    proof {
        assert(v@ =~= spec_img_save_name(index as int, format));
    }
    utils::string_from_chars(&v)
}

/// One image's download job: its URL, where its processed bytes belong, and
/// the band count that undoes its scrambling; zero means unscrambled.
#[derive(Debug, Clone)]
pub struct DownloadImgTask {
    pub url: String,
    pub save_path: String,
    pub block_num: u32,
}

impl DownloadImgTask {
    pub fn new(url: String, save_path: String, block_num: u32) -> (t: DownloadImgTask)
        ensures
            t.url == url,
            t.save_path == save_path,
            t.block_num == block_num,
    {
        DownloadImgTask { url, save_path, block_num }
    }
}

/// What a chapter task's event loop does next, given the observed state and
/// whether it holds a chapter permit.
#[derive(Debug, Clone, Copy, PartialEq, Eq, Structural)]
pub enum ChapterTaskStep {
    AcquirePermit,
    RunDownload,
    Wait,
    Abort,
    Finished,
}

/// The decision table of a chapter task's event loop: a pending task
/// queues for a permit, a downloading task that holds one runs, a paused
/// task waits for the next state change, a cancelled task abandons its
/// work, and a terminal task exits.
pub fn chapter_task_step(state: DownloadTaskState, holds_permit: bool) -> (r: ChapterTaskStep)
    ensures
        state is Pending ==> r is AcquirePermit,
        state is Downloading && holds_permit ==> r is RunDownload,
        state is Downloading && !holds_permit ==> r is Wait,
        state is Paused ==> r is Wait,
        state is Cancelled ==> r is Abort,
        state is Completed || state is Failed ==> r is Finished,
{
    match state {
        DownloadTaskState::Pending => ChapterTaskStep::AcquirePermit,
        DownloadTaskState::Downloading => if holds_permit {
            ChapterTaskStep::RunDownload
        } else {
            ChapterTaskStep::Wait
        },
        DownloadTaskState::Paused => ChapterTaskStep::Wait,
        DownloadTaskState::Cancelled => ChapterTaskStep::Abort,
        DownloadTaskState::Completed | DownloadTaskState::Failed => ChapterTaskStep::Finished,
    }
}

/// What an image task's event loop does next, given the chapter's state,
/// whether the destination file already exists, and whether the task holds
/// an image slot.
#[derive(Debug, Clone, Copy, PartialEq, Eq, Structural)]
pub enum ImgTaskStep {
    SkipExisting,
    AcquirePermit,
    DownloadBytes,
    Wait,
    Abort,
}

/// The decision table of an image task's event loop: work happens only
/// while the chapter downloads; an already-present destination is counted
/// without work, a missing slot is acquired first, a paused chapter makes
/// the task wait, and a cancelled chapter abandons it.
pub fn img_task_step(state: DownloadTaskState, dest_exists: bool, holds_permit: bool) -> (r:
    ImgTaskStep)
    ensures
        state is Downloading && !holds_permit ==> r is AcquirePermit,
        state is Downloading && holds_permit && dest_exists ==> r is SkipExisting,
        state is Downloading && holds_permit && !dest_exists ==> r is DownloadBytes,
        state is Paused || state is Pending ==> r is Wait,
        state is Cancelled ==> r is Abort,
        state is Completed || state is Failed ==> r is Wait,
{
    match state {
        DownloadTaskState::Downloading => {
            if !holds_permit {
                ImgTaskStep::AcquirePermit
            } else if dest_exists {
                ImgTaskStep::SkipExisting
            } else {
                ImgTaskStep::DownloadBytes
            }
        },
        DownloadTaskState::Cancelled => ImgTaskStep::Abort,
        _ => ImgTaskStep::Wait,
    }
}

} // verus!
