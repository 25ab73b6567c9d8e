use vstd::prelude::*;

use crate::collections::Queue;
use super::pixel::{sprite_le, Pixel, Sprite};

verus! {

/// The 5 steps of the pixel fetcher
#[derive(Clone, Copy, PartialEq, Eq, Structural, Debug)]
pub enum FetchState {
    Tile,
    TileDataLow,
    TileDataHigh,
    Sleep,
    Push,
}

/// Whether the first `n` objects of `s` are in line order.
pub open spec fn sorted_prefix(s: Seq<Sprite>, n: int) -> bool {
    forall|i: int, j: int| 0 <= i < j < n ==> sprite_le(#[trigger] s[i], #[trigger] s[j])
}

/// The line order is total.
proof fn lemma_sprite_le_total(a: Sprite, b: Sprite)
    ensures
        sprite_le(a, b) || sprite_le(b, a),
        sprite_le(a, b) && sprite_le(b, a) ==> a == b,
{
}

/// The line order is transitive.
proof fn lemma_sprite_le_trans(a: Sprite, b: Sprite, c: Sprite)
    requires
        sprite_le(a, b),
        sprite_le(b, c),
    ensures
        sprite_le(a, c),
{
}

/// The state of the line renderer.
pub struct Pipeline {
    /// Whether the ppu processing is disabled
    pub disabled: bool,
    /// To process 1 / 2 times
    pub ticks: u8,
    /// BG/Win Pixel fifo
    pub bgw_fifo: Queue<Pixel, 16>,
    /// Objects list
    pub obj_list: [Sprite; 10],
    pub obj_count: u8,
    pub obj_fetched_idx: [u8; 3],
    pub obj_fetched_count: u8,
    /// Tile map y offset
    pub addr_y_offset: u16,
    /// Current fetched X value in the tile map
    pub fetch_x: u8,
    /// Current Y inside the tile
    pub tile_y: u8,
    /// Current X rendered
    pub render_x: u8,
    /// Current X to render within scx
    pub lx: u8,
    /// Fetch data (tile index, tile data low, tile data high)
    pub bgw_data: [u8; 3],
    /// Sprite data (tile data low, tile data high)
    pub obj_data: [u8; 6],
    /// State of the processing
    pub state: FetchState,
    /// At some point in this frame the value of WY was equal to LY
    pub win_y_triggered: bool,
    /// Save the window line y coords
    pub win_ly: u8,
}

impl Pipeline {
    /// Counters stay within the bounds of the buffers they index.
    pub open spec fn wf(&self) -> bool {
        &&& self.ticks < 2
        &&& self.obj_count <= 10
        &&& self.obj_fetched_count <= 3
        &&& forall|i: int|
            0 <= i < self.obj_fetched_count ==> #[trigger] self.obj_fetched_idx@[i]
                < self.obj_count
        &&& self.addr_y_offset <= 992
        &&& self.tile_y < 8
    }

    /// The pipeline at power-on: every counter, buffer and flag at zero, the fetcher at
    /// its tile step.
    pub open spec fn is_initial(&self) -> bool {
        &&& !self.disabled
        &&& self.ticks == 0
        &&& self.bgw_fifo@ == Seq::<Pixel>::empty()
        &&& self.obj_list@ == Seq::new(10, |i: int| Sprite { x: 0, y: 0, tile_index: 0, attrs: 0 })
        &&& self.obj_count == 0
        &&& self.obj_fetched_idx@ == Seq::new(3, |i: int| 0u8)
        &&& self.obj_fetched_count == 0
        &&& self.addr_y_offset == 0
        &&& self.fetch_x == 0
        &&& self.tile_y == 0
        &&& self.render_x == 0
        &&& self.lx == 0
        &&& self.bgw_data@ == Seq::new(3, |i: int| 0u8)
        &&& self.obj_data@ == Seq::new(6, |i: int| 0u8)
        &&& self.state == FetchState::Tile
        &&& !self.win_y_triggered
        &&& self.win_ly == 0
    }

    pub fn new() -> (p: Self)
        ensures
            p.wf(),
            p.is_initial(),
    {
        let p = Self {
            disabled: false,
            ticks: 0,
            bgw_fifo: Queue::new([Pixel::default(); 16]),
            obj_list: [Sprite::default(); 10],
            obj_count: 0,
            obj_fetched_idx: [0u8; 3],
            obj_fetched_count: 0,
            addr_y_offset: 0,
            fetch_x: 0,
            tile_y: 0,
            bgw_data: [0u8; 3],
            obj_data: [0u8; 6],
            state: FetchState::Tile,
            render_x: 0,
            lx: 0,
            win_y_triggered: false,
            win_ly: 0,
        };
        assert(p.obj_list@ =~= Seq::new(10, |i: int| Sprite { x: 0, y: 0, tile_index: 0, attrs: 0 }));
        assert(p.obj_fetched_idx@ =~= Seq::new(3, |i: int| 0u8));
        assert(p.bgw_data@ =~= Seq::new(3, |i: int| 0u8));
        assert(p.obj_data@ =~= Seq::new(6, |i: int| 0u8));
        p
    }

    /// Init the pipeline fetcher to handle the pipeline during mode 3 (transfer)
    pub fn init_fetcher(&mut self, addr_y_offset: u16, tile_y: u8)
        requires
            old(self).wf(),
            addr_y_offset <= 992,
            tile_y < 8,
        ensures
            final(self).wf(),
            *final(self) == (Pipeline {
                addr_y_offset,
                tile_y,
                state: FetchState::Tile,
                bgw_fifo: final(self).bgw_fifo,
                render_x: 0,
                fetch_x: 0,
                lx: 0,
                ..*old(self)
            }),
            final(self).bgw_fifo@ == Seq::<Pixel>::empty(),
    {
        self.addr_y_offset = addr_y_offset;
        self.tile_y = tile_y;
        self.state = FetchState::Tile;
        self.bgw_fifo.clear();
        self.render_x = 0;
        self.fetch_x = 0;
        self.lx = 0;
    }

    /// Init sprites storage
    pub fn init_sprites(&mut self)
        requires
            old(self).wf(),
        ensures
            final(self).wf(),
            *final(self) == (Pipeline { obj_count: 0, obj_fetched_count: 0, ..*old(self) }),
    {
        self.obj_count = 0;
        self.obj_fetched_count = 0;
    }

    /// Add an object to the (at most 10) objects of the line
    pub fn push_sprite(&mut self, obj: Sprite)
        requires
            old(self).wf(),
            old(self).obj_count < 10,
        ensures
            final(self).wf(),
            *final(self) == (Pipeline {
                obj_list: final(self).obj_list,
                obj_count: (old(self).obj_count + 1) as u8,
                ..*old(self)
            }),
            final(self).obj_list@ == old(self).obj_list@.update(old(self).obj_count as int, obj),
    {
        let n = self.obj_count;
        self.obj_list[n as usize] = obj;
        self.obj_count = n + 1;
    }

    /// Sort the objects of the line by X
    pub fn sort_sprites(&mut self)
        requires
            old(self).wf(),
        ensures
            final(self).wf(),
            *final(self) == (Pipeline { obj_list: final(self).obj_list, ..*old(self) }),
            sorted_prefix(final(self).obj_list@, old(self).obj_count as int),
            final(self).obj_list@.subrange(0, old(self).obj_count as int).to_multiset()
                == old(self).obj_list@.subrange(0, old(self).obj_count as int).to_multiset(),
            final(self).obj_list@.subrange(old(self).obj_count as int, 10)
                == old(self).obj_list@.subrange(old(self).obj_count as int, 10),
    {
        broadcast use vstd::seq_lib::to_multiset_update;

        let n = self.obj_count as usize;
        let ghost orig = self.obj_list@;
        let mut i: usize = 1;
        while i < n
            invariant
                1 <= i || n == 0,
                i <= n || n == 0,
                n == self.obj_count,
                n <= 10,
                self.wf(),
                *self == (Pipeline { obj_list: self.obj_list, ..*old(self) }),
                i <= n ==> sorted_prefix(self.obj_list@, i as int),
                self.obj_list@.subrange(0, n as int).to_multiset() == orig.subrange(
                    0,
                    n as int,
                ).to_multiset(),
                self.obj_list@.subrange(n as int, 10) == orig.subrange(n as int, 10),
            decreases n - i,
        {
            let mut j: usize = i;
            while j > 0 && !self.obj_list[j - 1].le(&self.obj_list[j])
                invariant
                    0 <= j <= i < n <= 10,
                    n == self.obj_count,
                    self.wf(),
                    *self == (Pipeline { obj_list: self.obj_list, ..*old(self) }),
                    // everything but the moving element is sorted, and it is below its
                    // right neighbours
                    forall|a: int, b: int|
                        0 <= a < b <= i && a != j && b != j ==> sprite_le(
                            #[trigger] self.obj_list@[a],
                            #[trigger] self.obj_list@[b],
                        ),
                    forall|b: int| j < b <= i ==> sprite_le(self.obj_list@[j as int], #[trigger] self.obj_list@[b]),
                    self.obj_list@.subrange(0, n as int).to_multiset() == orig.subrange(
                        0,
                        n as int,
                    ).to_multiset(),
                    self.obj_list@.subrange(n as int, 10) == orig.subrange(n as int, 10),
                decreases j,
            {
                let ghost before = self.obj_list@;
                let a = self.obj_list[j - 1];
                let b = self.obj_list[j];
                proof {
                    lemma_sprite_le_total(a, b);
                }
                self.obj_list[j - 1] = b;
                self.obj_list[j] = a;
                proof {
                    let s = before.subrange(0, n as int);
                    assert(self.obj_list@.subrange(0, n as int) =~= s.update(j - 1, b).update(
                        j as int,
                        a,
                    ));
                    assert(s[j - 1] == a && s[j as int] == b);
                    let m = s.to_multiset();
                    assert(s.to_multiset().count(a) > 0) by {
                        vstd::seq_lib::to_multiset_contains(s, a);
                        assert(s.contains(a)) by {
                            assert(s[j - 1] == a);
                        }
                    }
                    assert(s.len() == n);
                    vstd::seq_lib::to_multiset_update(s, j - 1, b);
                    vstd::seq_lib::to_multiset_update(s.update(j - 1, b), j as int, a);
                    assert(s.update(j - 1, b).to_multiset() == m.insert(b).remove(a));
                    assert(s.update(j - 1, b)[j as int] == b);
                    assert(s.update(j - 1, b).update(j as int, a).to_multiset() == m.insert(b).remove(a).insert(a).remove(b));
                    assert(m.insert(b).remove(a).insert(a).remove(b) =~= m) by {
                        broadcast use vstd::multiset::group_multiset_axioms;
                    }
                    assert(self.obj_list@.subrange(n as int, 10) =~= before.subrange(n as int, 10));
                    assert forall|x: int, y: int|
                        0 <= x < y <= i && x != j - 1 && y != j - 1 implies sprite_le(
                        #[trigger] self.obj_list@[x],
                        #[trigger] self.obj_list@[y],
                    ) by {
                        if x == j as int {
                            assert(self.obj_list@[x] == a);
                            if y > j + 0 {
                                assert(sprite_le(before[j - 1], before[y]));
                            }
                        } else if y == j as int {
                            assert(sprite_le(before[x], before[j - 1]));
                        }
                    }
                    assert forall|y: int| j - 1 < y <= i implies sprite_le(
                        self.obj_list@[j - 1],
                        #[trigger] self.obj_list@[y],
                    ) by {
                        if y > j {
                            lemma_sprite_le_trans(b, a, before[y]);
                        }
                    }
                }
                j = j - 1;
            }
            proof {
                assert forall|x: int, y: int| 0 <= x < y < i + 1 implies sprite_le(
                    #[trigger] self.obj_list@[x],
                    #[trigger] self.obj_list@[y],
                ) by {
                    if y == j {
                        if j > 0 {
                            lemma_sprite_le_total(self.obj_list@[j - 1], self.obj_list@[j as int]);
                            if x < j - 1 {
                                lemma_sprite_le_trans(
                                    self.obj_list@[x],
                                    self.obj_list@[j - 1],
                                    self.obj_list@[j as int],
                                );
                            }
                        }
                    } else if x == j {
                    } else if x < j && j < y {
                        if j > 0 {
                            lemma_sprite_le_total(self.obj_list@[j - 1], self.obj_list@[j as int]);
                        }
                    }
                }
            }
            i = i + 1;
        }
        proof {
            if n <= 1 {
                assert(sorted_prefix(self.obj_list@, n as int));
            }
        }
    }
}

} // verus!
