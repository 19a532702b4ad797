//! The windowed prefetch cache: a fixed-capacity ring of decoded-image slots
//! that tracks a moving current position inside a larger ordered item list.
//!
//! The buffer owns only the bookkeeping: the item list, the logical-to-physical
//! index map, and the counts of decoded neighbours ahead (`front_file`) and
//! behind (`back_file`) of the current position. Each navigation or deletion
//! step computes at most one [`LoadRequest`] naming the physical slot to refill
//! and the item to decode into it; the surrounding application dispatches that
//! decode as background work and stores the pixels in its slot array.

use vstd::prelude::*;

verus! {

/// The mathematical state of a [`CircularBuffer`]: every contract below is
/// stated over this model, obtained through the buffer's view (`@`).
#[verifier::ext_equal]
pub struct BufModel {
    /// The item list: one display name per item, in browsing order.
    pub pics: Seq<Seq<char>>,
    /// Slot capacity fixed at construction.
    pub capacity: int,
    /// Number of ring positions actually in use: `min(capacity, pics.len())`,
    /// shrinking when deletion brings the item list below capacity.
    pub size: int,
    /// The index map: `idxs[logical ring position] == physical slot id`.
    pub idxs: Seq<int>,
    /// Logical ring position whose mapped slot holds the current item.
    pub cur: int,
    /// Offset of the current item within `pics`.
    pub cnt: int,
    /// Count of decoded neighbours ahead of the current position.
    pub front: int,
    /// Count of decoded neighbours behind the current position.
    pub back: int,
}

/// A single unit of background work: decode `elem` and store the result in
/// physical slot `buf_pos`.
#[derive(Debug)]
pub struct LoadRequest {
    /// Physical slot id to overwrite.
    pub buf_pos: usize,
    /// Display name of the item to decode.
    pub elem: String,
}

/// Display metadata for the currently designated slot.
#[derive(Debug)]
pub struct ImageStat {
    /// Display name of the current item.
    pub name: String,
    /// 1-based position of the current item in the item list.
    pub number: usize,
    /// Total number of items in the item list.
    pub out_of: usize,
}

/// Construction-time failure: the cache cannot be built over nothing.
#[derive(Debug, PartialEq, Eq, Structural, Clone, Copy)]
pub enum CacheError {
    /// The item list was empty.
    EmptyCollection,
}

/// The smaller of two integers.
pub open spec fn spec_min(a: int, b: int) -> int {
    if a <= b {
        a
    } else {
        b
    }
}

/// Wrap-around of a ring index that has been moved at most one full ring
/// forward: for `0 <= x < 2 * size`, the value of `x` modulo `size`.
pub open spec fn wrap_spec(x: int, size: int) -> int {
    if x >= size {
        x - size
    } else {
        x
    }
}

/// Target steady-state count of decoded neighbours on one side of the current
/// position.
pub open spec fn margin_of(m: BufModel) -> int {
    (m.capacity - 2) / 2
}

/// The index map is a bijection from the logical ring positions onto a
/// `size`-subset of the physical slot ids `{0, ..., capacity - 1}`.
pub open spec fn index_map_ok(m: BufModel) -> bool {
    &&& m.idxs.len() == m.size
    &&& forall|i: int| 0 <= i < m.idxs.len() ==> 0 <= #[trigger] m.idxs[i] < m.capacity
    &&& forall|i: int, j: int|
        0 <= i < j < m.idxs.len() ==> m.idxs[i] != m.idxs[j]
}

/// Invariant of every reachable buffer state.
pub open spec fn inv(m: BufModel) -> bool {
    &&& 2 <= m.capacity
    &&& m.capacity * 2 <= usize::MAX as int
    &&& 1 <= m.pics.len()
    &&& m.size == spec_min(m.capacity, m.pics.len() as int)
    &&& 0 <= m.cnt < m.pics.len()
    &&& 0 <= m.cur < m.size
    &&& 0 <= m.front
    &&& 0 <= m.back
    &&& m.front + m.back + 1 == m.size
    &&& m.back <= m.cnt
    &&& m.cnt + m.front <= m.pics.len() - 1
    &&& index_map_ok(m)
}

/// The state a buffer is constructed in: identity index map, current position
/// at the first item, the whole rest of the window counted ahead.
pub open spec fn initial_model(pics: Seq<Seq<char>>, capacity: int) -> BufModel {
    let size = spec_min(capacity, pics.len() as int);
    BufModel {
        pics: pics,
        capacity: capacity,
        size: size,
        idxs: Seq::new(size as nat, |i: int| i),
        cur: 0,
        cnt: 0,
        front: size - 1,
        back: 0,
    }
}

/// A [`LoadRequest`] at the model level: decode item `item` of the item list
/// into physical slot `slot`.
pub struct LoadModel {
    /// Offset of the item to decode within the item list.
    pub item: int,
    /// Physical slot id to overwrite.
    pub slot: int,
}

/// Relates an emitted [`LoadRequest`] to its model: the request names the
/// modelled slot, and carries the name of the modelled item of `m`'s list.
pub open spec fn load_opt_matches(r: Option<LoadRequest>, lm: Option<LoadModel>, m: BufModel) -> bool {
    match (r, lm) {
        (Option::None, Option::None) => true,
        (Option::Some(req), Option::Some(l)) => {
            &&& req.buf_pos as int == l.slot
            &&& req.elem@ == m.pics[l.item]
        },
        _ => false,
    }
}

/// Whether a step forward is possible: false exactly at the last item.
pub open spec fn can_advance(m: BufModel) -> bool {
    m.cnt + 1 < m.pics.len()
}

/// After stepping forward, the counts are merely rebalanced (no load issued)
/// when the front of the window is already more than a margin deep, or when
/// the window approaches the tail of the item list and there is nothing left
/// to preload. Otherwise the slot behind the window's back edge is recycled
/// for a newly reachable far-ahead neighbour. A window with nothing buffered
/// ahead cannot rebalance: the step lands on an unbuffered item, which is
/// then loaded into the very slot the position lands on.
pub open spec fn advance_rebalances(m: BufModel) -> bool {
    &&& 1 <= m.front
    &&& (m.front > margin_of(m) || m.cnt + 1 + margin_of(m) >= m.pics.len())
}

/// The state after a successful step forward.
pub open spec fn advance_model(m: BufModel) -> BufModel {
    let stepped = BufModel { cur: wrap_spec(m.cur + 1, m.size), cnt: m.cnt + 1, ..m };
    if advance_rebalances(m) {
        BufModel { front: m.front - 1, back: m.back + 1, ..stepped }
    } else {
        stepped
    }
}

/// The load issued by a successful step forward, if any: the item `front`
/// ahead of the new position, into the slot at ring offset `front` ahead of
/// the new position — the slot just recycled from behind the window's back
/// edge.
pub open spec fn advance_load(m: BufModel) -> Option<LoadModel> {
    if advance_rebalances(m) {
        Option::None
    } else {
        Option::Some(front_load_of(advance_model(m)))
    }
}

/// The refill of a state's front boundary: the item `front` ahead of the
/// current position, into the slot at ring offset `front` ahead.
pub open spec fn front_load_of(s: BufModel) -> LoadModel {
    LoadModel { item: s.cnt + s.front, slot: s.idxs[wrap_spec(s.cur + s.front, s.size)] }
}

/// The refill of a state's back boundary: the item `back` behind the current
/// position, into the slot at ring offset `back` behind.
pub open spec fn back_load_of(s: BufModel) -> LoadModel {
    LoadModel { item: s.cnt - s.back, slot: s.idxs[wrap_spec(s.cur + s.size - s.back, s.size)] }
}

/// Whether a step backward is possible: false exactly at the first item.
pub open spec fn can_retreat(m: BufModel) -> bool {
    1 <= m.cnt
}

/// Mirror image of [`advance_rebalances`]: after stepping backward, the
/// counts are merely rebalanced when the back of the window is already more
/// than a margin deep, or when the window touches the head of the item list.
pub open spec fn retreat_rebalances(m: BufModel) -> bool {
    m.back > margin_of(m) || m.cnt - 1 < m.back
}

/// The state after a successful step backward.
pub open spec fn retreat_model(m: BufModel) -> BufModel {
    let stepped = BufModel { cur: wrap_spec(m.cur + m.size - 1, m.size), cnt: m.cnt - 1, ..m };
    if retreat_rebalances(m) {
        BufModel { back: m.back - 1, front: m.front + 1, ..stepped }
    } else {
        stepped
    }
}

/// The load issued by a successful step backward, if any: the item `back`
/// behind the new position, into the slot at ring offset `back` behind the
/// new position.
pub open spec fn retreat_load(m: BufModel) -> Option<LoadModel> {
    if retreat_rebalances(m) {
        Option::None
    } else {
        Option::Some(back_load_of(retreat_model(m)))
    }
}

/// Whether deleting the current item leaves a usable, non-empty cache.
pub open spec fn can_delete(m: BufModel) -> bool {
    2 <= m.pics.len()
}

/// Deleting the current item shrinks the ring when the remaining items no
/// longer fill the capacity: the vacated slot is dropped for good.
pub open spec fn delete_shrinks(m: BufModel) -> bool {
    m.pics.len() - 1 < m.capacity
}

/// The index map after a full-capacity deletion away from the window's front
/// boundary: every logical position from the current one up to the front
/// boundary takes over the next position's slot, and the vacated slot (the
/// one that held the deleted item) is placed at the front boundary.
pub open spec fn rotated_indices(idxs: Seq<int>, cur: int, front: int) -> Seq<int> {
    let size = idxs.len() as int;
    Seq::new(
        idxs.len(),
        |p: int|
            {
                let off = wrap_spec(p + size - cur, size);
                if off < front {
                    idxs[wrap_spec(p + 1, size)]
                } else if off == front {
                    idxs[cur]
                } else {
                    idxs[p]
                }
            },
    )
}

/// The state after deleting the current item while the remaining items no
/// longer fill the capacity. The ring position of the deleted item leaves the
/// index map; if the deleted item was the window's front boundary the
/// position steps backward onto the new last buffered item, otherwise the
/// window merely becomes one slot narrower on its front side.
pub open spec fn delete_shrink_model(m: BufModel) -> BufModel {
    let pics2 = m.pics.remove(m.cnt);
    let idxs2 = m.idxs.remove(m.cur);
    let size2 = m.size - 1;
    if m.front == 0 {
        BufModel {
            pics: pics2,
            idxs: idxs2,
            size: size2,
            cnt: m.cnt - 1,
            back: m.back - 1,
            front: 0,
            cur: wrap_spec(m.cur + size2 - 1, size2),
            capacity: m.capacity,
        }
    } else {
        BufModel {
            pics: pics2,
            idxs: idxs2,
            size: size2,
            front: m.front - 1,
            cur: wrap_spec(m.cur, size2),
            ..m
        }
    }
}

/// Whether a full-capacity deletion refills the window's back boundary rather
/// than its front boundary. The back side is chosen when the deleted item was
/// the front boundary itself, or when the window approaches the tail of the
/// shortened item list — in either case only if an unbuffered item exists
/// behind the window; otherwise the front side is refilled.
pub open spec fn delete_refills_back(m: BufModel) -> bool {
    if m.front == 0 {
        m.cnt - 1 >= m.back
    } else {
        &&& (m.cnt + margin_of(m) >= m.pics.len() - 1 || m.cnt + m.front >= m.pics.len() - 1)
        &&& m.cnt >= m.back + 1
    }
}

/// The state after deleting the current item while the remaining items still
/// fill the capacity: the vacated slot is recycled as a window boundary and
/// will be refilled by the accompanying load.
pub open spec fn delete_full_model(m: BufModel) -> BufModel {
    let pics2 = m.pics.remove(m.cnt);
    if m.front == 0 {
        let stepped = BufModel {
            pics: pics2,
            cur: wrap_spec(m.cur + m.size - 1, m.size),
            cnt: m.cnt - 1,
            ..m
        };
        if delete_refills_back(m) {
            stepped
        } else {
            // No unbuffered item exists behind the window: recycle the
            // vacated slot ahead of the new position instead.
            BufModel { front: 1, back: m.back - 1, ..stepped }
        }
    } else {
        let stepped = BufModel {
            pics: pics2,
            idxs: rotated_indices(m.idxs, m.cur, m.front),
            ..m
        };
        if delete_refills_back(m) {
            BufModel { front: m.front - 1, back: m.back + 1, ..stepped }
        } else {
            stepped
        }
    }
}

/// The state after deleting the current item, provided more items remain.
pub open spec fn delete_model(m: BufModel) -> BufModel {
    if delete_shrinks(m) {
        delete_shrink_model(m)
    } else {
        delete_full_model(m)
    }
}

/// The load issued by deleting the current item, provided more items remain:
/// none when the ring shrinks (there is nothing left to fill the slot with),
/// otherwise the refill of the new state's chosen boundary.
pub open spec fn delete_load(m: BufModel) -> Option<LoadModel> {
    if delete_shrinks(m) {
        Option::None
    } else if delete_refills_back(m) {
        Option::Some(back_load_of(delete_full_model(m)))
    } else {
        Option::Some(front_load_of(delete_full_model(m)))
    }
}

/// Rotating an index map permutes it: the rotated map is again a bijection
/// onto the same slot ids.
proof fn lemma_rotated_indices_ok(idxs: Seq<int>, cur: int, front: int, capacity: int)
    requires
        1 <= idxs.len(),
        0 <= cur < idxs.len(),
        0 <= front < idxs.len(),
        forall|i: int| 0 <= i < idxs.len() ==> 0 <= #[trigger] idxs[i] < capacity,
        forall|i: int, j: int| 0 <= i < j < idxs.len() ==> idxs[i] != idxs[j],
    ensures
        rotated_indices(idxs, cur, front).len() == idxs.len(),
        forall|i: int|
            0 <= i < idxs.len() ==> 0 <= #[trigger] rotated_indices(idxs, cur, front)[i]
                < capacity,
        forall|i: int, j: int|
            0 <= i < j < idxs.len() ==> rotated_indices(idxs, cur, front)[i] != rotated_indices(
                idxs,
                cur,
                front,
            )[j],
{
    let size = idxs.len() as int;
    let r = rotated_indices(idxs, cur, front);
    // Each rotated position takes its value from a distinct source position.
    assert forall|p1: int, p2: int| 0 <= p1 < p2 < size implies r[p1] != r[p2] by {
        let o1 = wrap_spec(p1 + size - cur, size);
        let o2 = wrap_spec(p2 + size - cur, size);
        assert(o1 != o2);
        let s1 = if o1 < front {
            wrap_spec(p1 + 1, size)
        } else if o1 == front {
            cur
        } else {
            p1
        };
        let s2 = if o2 < front {
            wrap_spec(p2 + 1, size)
        } else if o2 == front {
            cur
        } else {
            p2
        };
        assert(r[p1] == idxs[s1]);
        assert(r[p2] == idxs[s2]);
        // The source positions are distinct, whichever case each falls in:
        // shifted sources of distinct positions differ; a shifted source can
        // be `cur` only at ring offset `size - 1`, which lies beyond `front`;
        // an untouched source sits at an offset above `front` while a shifted
        // one maps one offset below it.
        assert(wrap_spec(wrap_spec(p1 + 1, size) + size - cur, size) == if o1 + 1 < size {
            o1 + 1
        } else {
            0
        });
        assert(wrap_spec(wrap_spec(p2 + 1, size) + size - cur, size) == if o2 + 1 < size {
            o2 + 1
        } else {
            0
        });
        assert(wrap_spec(cur + size - cur, size) == 0);
        assert(s1 != s2);
        if s1 < s2 {
            assert(idxs[s1] != idxs[s2]);
        } else {
            assert(idxs[s2] != idxs[s1]);
        }
    }
}

/// The windowed prefetch cache. All state-changing operations require the
/// invariant [`inv`] of the model and re-establish it; their effect on the
/// model is pinned down exactly by the transition functions above.
pub struct CircularBuffer {
    /// Offset of the current item within `pic_list`.
    counter: usize,
    /// Display names of all items, in browsing order.
    pic_list: Vec<String>,
    /// Slot capacity fixed at construction.
    capacity: usize,
    /// Number of ring positions in use.
    true_size: usize,
    /// `indices[logical ring position] == physical slot id`.
    indices: Vec<usize>,
    /// Logical ring position of the current item.
    current_idx: usize,
    /// Decoded neighbours ahead of the current position.
    front_file: usize,
    /// Decoded neighbours behind the current position.
    back_file: usize,
}

/// Wrap-around of a ring index that has been moved at most one full ring
/// forward.
fn wrap_index(x: usize, size: usize) -> (r: usize)
    requires
        1 <= size,
        x < 2 * size,
    ensures
        r as int == wrap_spec(x as int, size as int),
        r < size,
{
    if x >= size {
        x - size
    } else {
        x
    }
}

impl View for CircularBuffer {
    type V = BufModel;

    closed spec fn view(&self) -> BufModel {
        BufModel {
            pics: self.pic_list.deep_view(),
            capacity: self.capacity as int,
            size: self.true_size as int,
            idxs: self.indices@.map_values(|v: usize| v as int),
            cur: self.current_idx as int,
            cnt: self.counter as int,
            front: self.front_file as int,
            back: self.back_file as int,
        }
    }
}

impl CircularBuffer {
    /// Builds the bookkeeping for browsing `pic_list` with `capacity` slots.
    ///
    /// The caller must then decode item 0 into slot 0 synchronously (so the
    /// first frame is immediately displayable) and call [`Self::init`] for the
    /// remaining slots of the initial window.
    pub fn new(pic_list: Vec<String>, capacity: usize) -> (r: Result<CircularBuffer, CacheError>)
        requires
            2 <= capacity,
            capacity * 2 <= usize::MAX,
        ensures
            match r {
                Ok(buf) => {
                    &&& pic_list@.len() >= 1
                    &&& buf@ == initial_model(pic_list.deep_view(), capacity as int)
                    &&& inv(buf@)
                },
                Err(e) => pic_list@.len() == 0 && e == CacheError::EmptyCollection,
            },
    {
        if pic_list.len() == 0 {
            return Err(CacheError::EmptyCollection);
        }
        let true_size = if capacity <= pic_list.len() {
            capacity
        } else {
            pic_list.len()
        };
        let mut indices: Vec<usize> = Vec::new();
        let mut i: usize = 0;
        while i < true_size
            invariant
                i <= true_size,
                indices@.len() == i,
                forall|j: int| 0 <= j < i ==> indices@[j] == j,
            decreases true_size - i,
        {
            indices.push(i);
            i += 1;
        }
        let buf = CircularBuffer {
            counter: 0,
            pic_list,
            capacity,
            true_size,
            indices,
            current_idx: 0,
            front_file: true_size - 1,
            back_file: 0,
        };
        proof {
            assert(buf@.idxs =~= Seq::new(true_size as nat, |i: int| i));
            assert(buf@ =~= initial_model(buf.pic_list.deep_view(), capacity as int));
        }
        Ok(buf)
    }

    /// One logical ring position forward of the current one.
    fn incr_idx(&self) -> (r: usize)
        requires
            1 <= self@.size,
            self@.cur < self@.size,
        ensures
            r as int == wrap_spec(self@.cur + 1, self@.size),
            r < self.true_size,
    {
        if self.current_idx + 1 == self.true_size {
            0
        } else {
            self.current_idx + 1
        }
    }

    /// One logical ring position backward of the current one. Callable while
    /// the ring has just shrunk and the stored position still points one past
    /// its end.
    fn decr_idx(&self) -> (r: usize)
        requires
            1 <= self@.size,
            self@.cur <= self@.size,
        ensures
            r as int == wrap_spec(self@.cur + self@.size - 1, self@.size),
            r < self.true_size,
    {
        if self.current_idx == 0 {
            self.true_size - 1
        } else {
            self.current_idx - 1
        }
    }

    /// The physical slot at ring offset `front_file` ahead of the current
    /// position: the front boundary of the window.
    fn front_buffer_idx(&self) -> (r: usize)
        requires
            1 <= self@.size,
            self@.size * 2 <= usize::MAX,
            self@.cur < self@.size,
            0 <= self@.front < self@.size,
            self@.idxs.len() == self@.size,
        ensures
            r as int == self@.idxs[wrap_spec(self@.cur + self@.front, self@.size)],
    {
        let pos = if self.current_idx + self.front_file >= self.true_size {
            self.current_idx + self.front_file - self.true_size
        } else {
            self.current_idx + self.front_file
        };
        self.indices[pos]
    }

    /// The physical slot at ring offset `back_file` behind the current
    /// position: the back boundary of the window.
    fn back_buffer_idx(&self) -> (r: usize)
        requires
            1 <= self@.size,
            self@.size * 2 <= usize::MAX,
            self@.cur < self@.size,
            0 <= self@.back < self@.size,
            self@.idxs.len() == self@.size,
        ensures
            r as int == self@.idxs[wrap_spec(self@.cur + self@.size - self@.back, self@.size)],
    {
        let pos = if self.current_idx + (self.true_size - self.back_file) >= self.true_size {
            self.current_idx - self.back_file
        } else {
            self.current_idx + (self.true_size - self.back_file)
        };
        self.indices[pos]
    }

    /// Steps to the next item. Returns whether a step was taken (false exactly
    /// at the last item, with nothing changed), and the background load to
    /// dispatch, if this step brought a new far-ahead neighbour into reach.
    pub fn next_img(&mut self) -> (r: (bool, Option<LoadRequest>))
        requires
            inv(old(self)@),
        ensures
            inv(final(self)@),
            r.0 == can_advance(old(self)@),
            !r.0 ==> *final(self) == *old(self) && r.1 is None,
            r.0 ==> final(self)@ == advance_model(old(self)@),
            r.0 ==> load_opt_matches(r.1, advance_load(old(self)@), old(self)@),
    {
        proof {
            assert(self@.pics.len() == self.pic_list@.len());
            assert(self.counter < self.pic_list.len());
        }
        if self.counter + 1 >= self.pic_list.len() {
            return (false, Option::None);
        }
        self.current_idx = self.incr_idx();
        self.counter += 1;
        let margin = (self.capacity - 2) / 2;
        let front_buf_full = self.front_file > margin;
        let no_more_elems = self.pic_list.len() - self.counter <= margin;
        if 1 <= self.front_file && (front_buf_full || no_more_elems) {
            self.front_file -= 1;
            self.back_file += 1;
            proof {
                assert(self@ =~= advance_model(old(self)@));
            }
            (true, Option::None)
        } else {
            assert(self@.cnt + self@.front < self@.pics.len());
            let item_idx = self.counter + self.front_file;
            let slot = self.front_buffer_idx();
            let elem = self.pic_list[item_idx].clone();
            proof {
                assert(self@ =~= advance_model(old(self)@));
            }
            (true, Option::Some(LoadRequest { buf_pos: slot, elem }))
        }
    }

    /// Steps to the previous item. Returns whether a step was taken (false
    /// exactly at the first item, with nothing changed), and the background
    /// load to dispatch, if this step brought a new far-behind neighbour into
    /// reach.
    pub fn prev_img(&mut self) -> (r: (bool, Option<LoadRequest>))
        requires
            inv(old(self)@),
        ensures
            inv(final(self)@),
            r.0 == can_retreat(old(self)@),
            !r.0 ==> *final(self) == *old(self) && r.1 is None,
            r.0 ==> final(self)@ == retreat_model(old(self)@),
            r.0 ==> load_opt_matches(r.1, retreat_load(old(self)@), old(self)@),
    {
        if self.counter == 0 {
            return (false, Option::None);
        }
        self.current_idx = self.decr_idx();
        self.counter -= 1;
        let margin = (self.capacity - 2) / 2;
        let back_buf_full = self.back_file > margin;
        let no_more_elems = self.counter < self.back_file;
        if back_buf_full || no_more_elems {
            self.back_file -= 1;
            self.front_file += 1;
            proof {
                assert(self@ =~= retreat_model(old(self)@));
            }
            (true, Option::None)
        } else {
            let item_idx = self.counter - self.back_file;
            let slot = self.back_buffer_idx();
            let elem = self.pic_list[item_idx].clone();
            proof {
                assert(self@ =~= retreat_model(old(self)@));
            }
            (true, Option::Some(LoadRequest { buf_pos: slot, elem }))
        }
    }

    /// Removes the current item from the item list, reusing or dropping its
    /// slot. Returns whether any items remain (false means the cache is no
    /// longer usable and the caller must tear down the view), and the
    /// background load refilling the recycled window boundary, if the
    /// remaining items still fill the capacity.
    pub fn delete(&mut self) -> (r: (bool, Option<LoadRequest>))
        requires
            inv(old(self)@),
        ensures
            r.0 == can_delete(old(self)@),
            !r.0 ==> final(self)@.pics.len() == 0 && r.1 is None,
            r.0 ==> inv(final(self)@),
            r.0 ==> final(self)@ == delete_model(old(self)@),
            r.0 ==> load_opt_matches(r.1, delete_load(old(self)@), delete_model(old(self)@)),
    {
        proof {
            assert(self@.pics.len() == self.pic_list@.len());
            assert(self.counter < self.pic_list.len());
        }
        let _removed = self.pic_list.remove(self.counter);
        proof {
            old(self).pic_list@.remove_ensures(old(self)@.cnt);
            old(self).pic_list.deep_view().remove_ensures(old(self)@.cnt);
            assert(self.pic_list.deep_view() =~= old(self).pic_list.deep_view().remove(
                old(self)@.cnt,
            ));
        }
        if self.pic_list.len() == 0 {
            return (false, Option::None);
        }
        if self.pic_list.len() < self.capacity {
            // The remaining items no longer fill the capacity: the vacated
            // ring position leaves the index map for good.
            let _slot = self.indices.remove(self.current_idx);
            proof {
                old(self).indices@.remove_ensures(old(self)@.cur);
                old(self)@.idxs.remove_ensures(old(self)@.cur);
                assert(self.indices@.map_values(|v: usize| v as int) =~= old(
                    self,
                )@.idxs.remove(old(self)@.cur));
            }
            self.true_size -= 1;
            if self.front_file == 0 {
                // The deleted item was the window's front boundary: step
                // backward onto the new last buffered item.
                self.counter -= 1;
                self.back_file -= 1;
                self.current_idx = self.decr_idx();
                proof {
                    assert(self@ =~= delete_model(old(self)@));
                }
                return (true, Option::None);
            }
            self.front_file -= 1;
            if self.current_idx == self.true_size {
                // The vacated position was the ring's last: wrap onto the
                // front neighbour, which now sits at position 0.
                self.current_idx = 0;
            }
            proof {
                assert(self@ =~= delete_model(old(self)@));
            }
            return (true, Option::None);
        }
        // The remaining items still fill the capacity: recycle the vacated
        // slot as a window boundary and refill it.
        if self.front_file == 0 {
            // The deleted item was the window's front boundary: shift the
            // window backward by one logical position.
            self.current_idx = self.decr_idx();
            self.counter -= 1;
            if self.counter >= self.back_file {
                // Refill the vacated slot, now the back boundary, with the
                // next unbuffered item behind the window.
                let slot = self.back_buffer_idx();
                let item_idx = self.counter - self.back_file;
                let elem = self.pic_list[item_idx].clone();
                proof {
                    assert(self@ =~= delete_model(old(self)@));
                }
                return (true, Option::Some(LoadRequest { buf_pos: slot, elem }));
            }
            // Every item behind the window is already buffered: recycle the
            // vacated slot ahead of the new position instead.
            self.front_file = 1;
            self.back_file -= 1;
            let slot = self.front_buffer_idx();
            let item_idx = self.counter + 1;
            let elem = self.pic_list[item_idx].clone();
            proof {
                assert(self@ =~= delete_model(old(self)@));
            }
            return (true, Option::Some(LoadRequest { buf_pos: slot, elem }));
        }
        // The deleted item sat inside or behind the window's front span:
        // every logical position from the current one up to the front
        // boundary takes over the next position's slot, and the vacated slot
        // becomes the new front boundary.
        self.rotate_window();
        proof {
            lemma_rotated_indices_ok(
                old(self)@.idxs,
                old(self)@.cur,
                old(self)@.front,
                old(self)@.capacity,
            );
        }
        // Decide which boundary the recycled slot refills, mirroring the
        // advance decision: the back side when the window approaches the tail
        // of the shortened list (or no unbuffered item exists ahead), and
        // only if an unbuffered item exists behind; the front side otherwise.
        let margin = (self.capacity - 2) / 2;
        let near_tail = self.pic_list.len() - self.counter <= margin;
        let front_exists = self.front_file < self.pic_list.len() - self.counter;
        if (near_tail || !front_exists) && self.counter > self.back_file {
            self.front_file -= 1;
            self.back_file += 1;
            let slot = self.back_buffer_idx();
            let item_idx = self.counter - self.back_file;
            let elem = self.pic_list[item_idx].clone();
            proof {
                assert(self@ =~= delete_model(old(self)@));
            }
            (true, Option::Some(LoadRequest { buf_pos: slot, elem }))
        } else {
            assert(self@.cnt + self@.front < self@.pics.len());
            let slot = self.front_buffer_idx();
            let item_idx = self.counter + self.front_file;
            let elem = self.pic_list[item_idx].clone();
            proof {
                assert(self@ =~= delete_model(old(self)@));
            }
            (true, Option::Some(LoadRequest { buf_pos: slot, elem }))
        }
    }

    /// Rotates the index map after a full-capacity deletion away from the
    /// window's front boundary: each logical position of the front span takes
    /// over the next position's slot, and the slot of the current position
    /// (the vacated one) moves to the front boundary.
    fn rotate_window(&mut self)
        requires
            1 <= old(self)@.size,
            old(self)@.size * 2 <= usize::MAX,
            old(self)@.idxs.len() == old(self)@.size,
            0 <= old(self)@.cur < old(self)@.size,
            1 <= old(self)@.front < old(self)@.size,
        ensures
            final(self)@ == (BufModel {
                idxs: rotated_indices(old(self)@.idxs, old(self)@.cur, old(self)@.front),
                ..old(self)@
            }),
    {
        let buf_idx = self.indices[self.current_idx];
        let ghost pre_rot = *self;
        let mut i: usize = 0;
        #[verifier::loop_isolation(false)]
        while i < self.front_file
            invariant
                i <= self.front_file,
                self.counter == pre_rot.counter,
                self.capacity == pre_rot.capacity,
                self.true_size == pre_rot.true_size,
                self.current_idx == pre_rot.current_idx,
                self.front_file == pre_rot.front_file,
                self.back_file == pre_rot.back_file,
                self.pic_list == pre_rot.pic_list,
                self.indices@.len() == pre_rot.indices@.len(),
                forall|p: int|
                    0 <= p < self@.size ==> #[trigger] self@.idxs[p] == {
                        let off = wrap_spec(p + self@.size - self@.cur, self@.size);
                        if off < i {
                            pre_rot@.idxs[wrap_spec(p + 1, self@.size)]
                        } else {
                            pre_rot@.idxs[p]
                        }
                    },
            decreases self.front_file - i,
        {
            let src_pos = wrap_index(self.current_idx + (i + 1), self.true_size);
            let dst_pos = wrap_index(self.current_idx + i, self.true_size);
            let v = self.indices[src_pos];
            let ghost prev_idxs = self@.idxs;
            self.indices.set(dst_pos, v);
            proof {
                let size = pre_rot@.size;
                let cur = pre_rot@.cur;
                assert(self@.idxs =~= prev_idxs.update(dst_pos as int, v as int));
                assert(wrap_spec(dst_pos as int + size - cur, size) == i as int);
                assert(wrap_spec(src_pos as int + size - cur, size) == i + 1);
                assert(wrap_spec(dst_pos as int + 1, size) == src_pos as int);
                assert forall|p: int|
                    0 <= p < size && p != dst_pos as int implies #[trigger] wrap_spec(
                        p + size - cur,
                        size,
                    ) != i as int by {}
                assert forall|p: int| 0 <= p < size implies #[trigger] self@.idxs[p] == {
                    let off = wrap_spec(p + size - cur, size);
                    if off < i + 1 {
                        pre_rot@.idxs[wrap_spec(p + 1, size)]
                    } else {
                        pre_rot@.idxs[p]
                    }
                } by {
                    if p == dst_pos as int {
                        assert(self@.idxs[p] == v as int);
                        assert(v as int == prev_idxs[src_pos as int]);
                        assert(prev_idxs[src_pos as int] == pre_rot@.idxs[src_pos as int]);
                    } else {
                        assert(self@.idxs[p] == prev_idxs[p]);
                        assert(wrap_spec(p + size - cur, size) != i as int);
                    }
                }
            }
            i += 1;
        }
        let vac_pos = wrap_index(self.current_idx + self.front_file, self.true_size);
        let ghost before_vac = self@.idxs;
        self.indices.set(vac_pos, buf_idx);
        proof {
            let size = pre_rot@.size;
            let cur = pre_rot@.cur;
            let front = pre_rot@.front;
            assert(buf_idx as int == old(self)@.idxs[cur]);
            assert(self@.idxs =~= before_vac.update(vac_pos as int, buf_idx as int));
            assert(wrap_spec(vac_pos as int + size - cur, size) == front);
            assert forall|p: int|
                0 <= p < size && p != vac_pos as int implies #[trigger] wrap_spec(
                    p + size - cur,
                    size,
                ) != front by {}
            assert(self.indices@.map_values(|v: usize| v as int) =~= rotated_indices(
                old(self)@.idxs,
                old(self)@.cur,
                old(self)@.front,
            ));
            assert(self@ =~= (BufModel {
                idxs: rotated_indices(old(self)@.idxs, old(self)@.cur, old(self)@.front),
                ..old(self)@
            }));
        }
    }

    /// The physical slot id that currently holds the displayed item.
    pub fn current_buffer_idx(&self) -> (r: usize)
        requires
            inv(self@),
        ensures
            r as int == self@.idxs[self@.cur],
    {
        self.indices[self.current_idx]
    }

    /// The background loads that fill the rest of the initial window: items
    /// `1..true_size` into their identically numbered slots. Kept separate
    /// from construction so the synchronously decoded first frame never waits
    /// on them.
    pub fn init(&self) -> (r: Vec<LoadRequest>)
        requires
            inv(self@),
        ensures
            r@.len() == self@.size - 1,
            forall|k: int|
                0 <= k < r@.len() ==> (#[trigger] r@[k]).buf_pos == k + 1 && r@[k].elem@
                    == self@.pics[k + 1],
    {
        let mut r: Vec<LoadRequest> = Vec::new();
        let mut i: usize = 1;
        #[verifier::loop_isolation(false)]
        while i < self.true_size
            invariant
                1 <= i <= self.true_size,
                r@.len() == i - 1,
                forall|k: int|
                    0 <= k < r@.len() ==> (#[trigger] r@[k]).buf_pos == k + 1 && r@[k].elem@
                        == self@.pics[k + 1],
            decreases self.true_size - i,
        {
            let elem = self.pic_list[i].clone();
            r.push(LoadRequest { buf_pos: i, elem });
            proof {
                assert(self@.pics[i as int] == self.pic_list@[i as int]@);
                assert(r@[i - 1].buf_pos == i && r@[i - 1].elem@ == self@.pics[i as int]);
            }
            i += 1;
        }
        r
    }

    /// Display metadata of the current item: its name, its 1-based position
    /// and the total item count.
    pub fn get_elem(&self) -> (r: ImageStat)
        requires
            inv(self@),
        ensures
            r.name@ == self@.pics[self@.cnt],
            r.number == self@.cnt + 1,
            r.out_of == self@.pics.len(),
    {
        proof {
            assert(self@.pics.len() == self.pic_list@.len());
            assert(self.counter < self.pic_list.len());
        }
        ImageStat {
            name: self.pic_list[self.counter].clone(),
            number: self.counter + 1,
            out_of: self.pic_list.len(),
        }
    }

    /// Display metadata right after construction, before any background load
    /// is guaranteed to have completed: the first item's name, with the
    /// current 1-based position and the total item count.
    pub fn get_first_elem(&self) -> (r: ImageStat)
        requires
            inv(self@),
        ensures
            r.name@ == self@.pics[0],
            r.number == self@.cnt + 1,
            r.out_of == self@.pics.len(),
    {
        proof {
            assert(self@.pics.len() == self.pic_list@.len());
            assert(self.counter < self.pic_list.len());
        }
        ImageStat {
            name: self.pic_list[0].clone(),
            number: self.counter + 1,
            out_of: self.pic_list.len(),
        }
    }
}

/// The window always partitions the ring exactly: the slots ahead, the slots
/// behind and the current slot together account for every ring position in
/// use. This holds in every reachable state, boundary states included.
pub proof fn lemma_window_partition(m: BufModel)
    requires
        inv(m),
    ensures
        m.front + m.back + 1 == m.size,
{
}

/// The current ring position is always in range and the index map is always a
/// bijection onto a `size`-subset of the physical slot ids.
pub proof fn lemma_index_map_bijection(m: BufModel)
    requires
        inv(m),
    ensures
        0 <= m.cur < m.size,
        m.idxs.len() == m.size,
        forall|i: int| 0 <= i < m.size ==> 0 <= #[trigger] m.idxs[i] < m.capacity,
        forall|i: int, j: int| 0 <= i < j < m.size ==> m.idxs[i] != m.idxs[j],
{
}

/// Round trip: stepping forward and then backward from a position with a
/// full margin of decoded neighbours on both sides restores the entire state
/// — counter, ring position, and both window counts — and issues no load in
/// either direction.
pub proof fn lemma_advance_retreat_roundtrip(m: BufModel)
    requires
        inv(m),
        can_advance(m),
        m.front > margin_of(m),
        m.back >= margin_of(m),
    ensures
        retreat_model(advance_model(m)) == m,
        advance_load(m) is None,
        retreat_load(advance_model(m)) is None,
{
    assert(retreat_model(advance_model(m)) =~= m);
}

/// Deleting the item at the window's front boundary steps the position back
/// by one: the new current item is the one that immediately preceded the
/// deleted one.
pub proof fn lemma_delete_at_window_front(m: BufModel)
    requires
        inv(m),
        can_delete(m),
        m.front == 0,
    ensures
        delete_model(m).cnt == m.cnt - 1,
        delete_model(m).pics == m.pics.remove(m.cnt),
        delete_model(m).pics[delete_model(m).cnt] == m.pics[m.cnt - 1],
{
    m.pics.remove_ensures(m.cnt);
}

} // verus!
