//! The render-buffer core: two large shared buffers (vertex and index)
//! mirror every live entity so that the whole scene draws from one vertex
//! buffer binding. Each entity identity owns a fixed slot of four vertex
//! records; the index buffer is filled once, with every block of six
//! indices pre-offset by four times the slot number, and never rewritten.

pub mod material;
pub mod mesh;
pub mod sorting_layer;
pub mod sprite;
pub mod vertex;

use vstd::prelude::*;

use crate::camera::{camera_in_bounds, spec_view_projection, Camera, CameraUniform};
use crate::entity::Entity;
use crate::graphics::sorting_layer::SortingLayer;
use crate::graphics::sprite::template_indices;
use crate::graphics::vertex::{zero_render_vertex, RenderVertex};
use crate::math::mat4_identity;

verus! {

/// Vertex records per entity slot: the four corners of the quad.
pub const VERTS_PER_ENTITY: usize = 4;

/// Indices per entity: two triangles.
pub const INDICES_PER_ENTITY: usize = 6;

/// Size of one vertex record as laid out for the GPU: 21 four-byte lanes
/// (3 position, 2 texture, 16 transform).
pub const VERTEX_RECORD_BYTES: usize = 84;

/// Size in bytes of one entity's slot in the vertex buffer.
pub const SLOT_BYTES: usize = 4 * 84;

/// The largest capacity the buffers may be created with; keeps every
/// index below `u32::MAX` and every byte offset well inside `usize`.
pub const MAX_CAPACITY: usize = 0x0fff_ffff;

/// Byte offset of the vertex-buffer slot owned by entity `id`.
pub open spec fn slot_byte_offset(id: int) -> int {
    id * (SLOT_BYTES as int)
}

/// The index stored at position `k` of entity `e`'s index block: the quad
/// pattern shifted by the entity's four-vertex slot.
pub open spec fn quad_index(e: int, k: int) -> int {
    4 * e + template_indices()[k]
}

/// The index buffer as initialization leaves it for capacity `max`: six
/// indices per slot, each block pre-offset so no draw needs a base vertex.
pub open spec fn index_buffer_ok(s: Seq<u32>, max: int) -> bool {
    &&& s.len() == 6 * max
    &&& forall|j: int| 0 <= j < s.len() ==> #[trigger] s[j] == quad_index(j / 6, j % 6)
}

/// The four vertex records of entity `id`'s slot.
pub open spec fn slot_of(s: Seq<RenderVertex>, id: int) -> Seq<RenderVertex> {
    s.subrange(4 * id, 4 * id + 4)
}

/// The vertex buffer after entity `id`'s slot is overwritten with `verts`.
pub open spec fn write_slot(
    s: Seq<RenderVertex>,
    id: int,
    verts: Seq<RenderVertex>,
) -> Seq<RenderVertex> {
    s.update(4 * id, verts[0]).update(4 * id + 1, verts[1]).update(4 * id + 2, verts[2]).update(
        4 * id + 3,
        verts[3],
    )
}

/// Entity `id`'s slot holds the four template vertices, each carrying the
/// world transform of an entity standing at `pos` with rotation `rot`:
/// what `write_entity` leaves there after the entity is created or moved.
pub open spec fn slot_renders_entity(
    buf: Seq<RenderVertex>,
    id: int,
    pos: crate::math::Vec2,
    rot: crate::math::Quat,
) -> bool {
    forall|k: int| 0 <= k < 4 ==> {
        &&& (#[trigger] buf[4 * id + k]).position
            == crate::graphics::sprite::template_vertices()[k].position
        &&& buf[4 * id + k].tex_coords == crate::graphics::sprite::template_vertices()[k].tex_coords
        &&& crate::math::is_entity_transform(buf[4 * id + k].transform, pos, rot)
    }
}

/// A slot's rendered contents survive a rewrite of any other slot.
pub proof fn lemma_slot_renders_preserved(
    buf1: Seq<RenderVertex>,
    buf2: Seq<RenderVertex>,
    id: int,
    other: int,
    pos: crate::math::Vec2,
    rot: crate::math::Quat,
)
    requires
        slot_renders_entity(buf1, id, pos, rot),
        buf2.len() == buf1.len(),
        0 <= id,
        0 <= other,
        id != other,
        4 * id + 4 <= buf1.len(),
        forall|j: int| 0 <= j < buf1.len() && !(4 * other <= j < 4 * other + 4) ==> buf2[j]
            == buf1[j],
    ensures
        slot_renders_entity(buf2, id, pos, rot),
{
    assert forall|k: int| 0 <= k < 4 implies {
        &&& (#[trigger] buf2[4 * id + k]).position
            == crate::graphics::sprite::template_vertices()[k].position
        &&& buf2[4 * id + k].tex_coords == crate::graphics::sprite::template_vertices()[k].tex_coords
        &&& crate::math::is_entity_transform(buf2[4 * id + k].transform, pos, rot)
    } by {
        assert(buf2[4 * id + k] == buf1[4 * id + k]);
        assert(buf1[4 * id + k].position
            == crate::graphics::sprite::template_vertices()[k].position);
    }
}

/// Distinct entity identities own disjoint byte ranges of the vertex
/// buffer: one range ends at or before the other begins.
pub proof fn lemma_slot_ranges_disjoint(i: int, j: int)
    requires
        0 <= i,
        0 <= j,
        i != j,
    ensures
        slot_byte_offset(i) + SLOT_BYTES <= slot_byte_offset(j) || slot_byte_offset(j)
            + SLOT_BYTES <= slot_byte_offset(i),
{
    if i < j {
        assert((i + 1) * (SLOT_BYTES as int) <= j * (SLOT_BYTES as int)) by (nonlinear_arith)
            requires
                i + 1 <= j,
        ;
        assert(i * (SLOT_BYTES as int) + SLOT_BYTES == (i + 1) * (SLOT_BYTES as int))
            by (nonlinear_arith);
    } else {
        assert((j + 1) * (SLOT_BYTES as int) <= i * (SLOT_BYTES as int)) by (nonlinear_arith)
            requires
                j + 1 <= i,
        ;
        assert(j * (SLOT_BYTES as int) + SLOT_BYTES == (j + 1) * (SLOT_BYTES as int))
            by (nonlinear_arith);
    }
}

/// Writing a slot and reading it back yields exactly the written records,
/// and a later write to any other identity leaves them untouched.
pub proof fn lemma_write_read_round_trip(
    s: Seq<RenderVertex>,
    i: int,
    j: int,
    vi: Seq<RenderVertex>,
    vj: Seq<RenderVertex>,
)
    requires
        0 <= i,
        0 <= j,
        i != j,
        vi.len() == 4,
        vj.len() == 4,
        4 * i + 4 <= s.len(),
        4 * j + 4 <= s.len(),
    ensures
        slot_of(write_slot(s, i, vi), i) == vi,
        slot_of(write_slot(write_slot(s, i, vi), j, vj), i) == vi,
{
    assert(slot_of(write_slot(s, i, vi), i) =~= vi);
    assert(slot_of(write_slot(write_slot(s, i, vi), j, vj), i) =~= vi);
}

/// Once initialized, entity `e`'s index block holds the quad pattern
/// `[4e, 4e+1, 4e+3, 4e+1, 4e+2, 4e+3]`; no entity operation writes the
/// index buffer, so this holds for the life of the buffers.
pub proof fn lemma_index_block(s: Seq<u32>, max: int, e: int)
    requires
        index_buffer_ok(s, max),
        0 <= e < max,
    ensures
        s[6 * e] == 4 * e,
        s[6 * e + 1] == 4 * e + 1,
        s[6 * e + 2] == 4 * e + 3,
        s[6 * e + 3] == 4 * e + 1,
        s[6 * e + 4] == 4 * e + 2,
        s[6 * e + 5] == 4 * e + 3,
{
    assert forall|k: int| 0 <= k < 6 implies #[trigger] s[6 * e + k] == quad_index(e, k) by {
        vstd::arithmetic::div_mod::lemma_fundamental_div_mod_converse(6 * e + k, 6, e, k);
        assert(6 * e + k < 6 * max) by (nonlinear_arith)
            requires
                e + 1 <= max,
                0 <= k < 6,
        ;
    }
    assert(s[6 * e + 0] == quad_index(e, 0));
    assert(s[6 * e + 1] == quad_index(e, 1));
    assert(s[6 * e + 2] == quad_index(e, 2));
    assert(s[6 * e + 3] == quad_index(e, 3));
    assert(s[6 * e + 4] == quad_index(e, 4));
    assert(s[6 * e + 5] == quad_index(e, 5));
}

/// The `(identity, material)` entries of the entities on `layer`, in
/// registry traversal order; holes are skipped.
pub open spec fn layer_entries(s: Seq<Option<Entity>>, layer: SortingLayer) -> Seq<(usize, usize)>
    decreases s.len(),
{
    if s.len() == 0 {
        Seq::empty()
    } else {
        let prefix = layer_entries(s.drop_last(), layer);
        match s.last() {
            Some(e) => if e.sorting_layer == layer {
                prefix.push((e.id, e.sprite_mat))
            } else {
                prefix
            },
            None => prefix,
        }
    }
}

/// Identities in `g` are strictly ascending.
pub open spec fn entries_ascending(g: Seq<(usize, usize)>) -> bool {
    forall|a: int, b: int| 0 <= a < b < g.len() ==> (#[trigger] g[a]).0 < (#[trigger] g[b]).0
}

/// Every identity in `g` is below `bound`.
pub open spec fn entries_below(g: Seq<(usize, usize)>, bound: int) -> bool {
    forall|a: int| 0 <= a < g.len() ==> (#[trigger] g[a]).0 < bound
}

/// Grouping partitions the registry: every live entity's
/// `(identity, material)` entry stands in exactly the group of its layer,
/// and each group keeps identities in ascending registry order.
pub proof fn lemma_group_partition(s: Seq<Option<Entity>>)
    requires
        forall|k: int| 0 <= k < s.len() ==> ((#[trigger] s[k]) matches Some(e) ==> e.id == k),
    ensures
        forall|k: int| 0 <= k < s.len() ==> ((#[trigger] s[k]) matches Some(e) ==> ((
        e.sorting_layer == SortingLayer::Background) <==> layer_entries(
            s,
            SortingLayer::Background,
        ).contains((e.id, e.sprite_mat)))),
        forall|k: int| 0 <= k < s.len() ==> ((#[trigger] s[k]) matches Some(e) ==> ((
        e.sorting_layer == SortingLayer::Foreground) <==> layer_entries(
            s,
            SortingLayer::Foreground,
        ).contains((e.id, e.sprite_mat)))),
        entries_ascending(layer_entries(s, SortingLayer::Background)),
        entries_ascending(layer_entries(s, SortingLayer::Foreground)),
        entries_below(layer_entries(s, SortingLayer::Background), s.len() as int),
        entries_below(layer_entries(s, SortingLayer::Foreground), s.len() as int),
    decreases s.len(),
{
    if s.len() > 0 {
        let s0 = s.drop_last();
        assert(forall|k: int| 0 <= k < s0.len() ==> s0[k] == s[k]);
        lemma_group_partition(s0);
        let bg0 = layer_entries(s0, SortingLayer::Background);
        let fg0 = layer_entries(s0, SortingLayer::Foreground);
        let bg = layer_entries(s, SortingLayer::Background);
        let fg = layer_entries(s, SortingLayer::Foreground);
        let last = s.last();
        assert(s[s.len() - 1] == last);
        match last {
            Some(e) => {
                assert(e.id == s.len() - 1);
                if e.sorting_layer == SortingLayer::Background {
                    assert(bg == bg0.push((e.id, e.sprite_mat)));
                    assert(bg.contains((e.id, e.sprite_mat))) by {
                        assert(bg[bg.len() - 1] == (e.id, e.sprite_mat));
                    }
                    assert(fg == fg0);
                } else {
                    assert(fg == fg0.push((e.id, e.sprite_mat)));
                    assert(fg.contains((e.id, e.sprite_mat))) by {
                        assert(fg[fg.len() - 1] == (e.id, e.sprite_mat));
                    }
                    assert(bg == bg0);
                }
            },
            None => {
                assert(bg == bg0);
                assert(fg == fg0);
            },
        }
        // A pushed entry keeps every old entry and membership; an entry of
        // the prefix has an identity below the pushed one, so the two are
        // never confused.
        assert forall|k: int| 0 <= k < s.len() implies ((#[trigger] s[k]) matches Some(e) ==> ((((
        e.sorting_layer == SortingLayer::Background) <==> bg.contains((e.id, e.sprite_mat))))
            && (((e.sorting_layer == SortingLayer::Foreground) <==> fg.contains(
            (e.id, e.sprite_mat),
        ))))) by {
            match s[k] {
                Some(e) => {
                    if k < s.len() - 1 {
                        lemma_push_membership(bg0, (e.id, e.sprite_mat), s.len() - 1, bg);
                        lemma_push_membership(fg0, (e.id, e.sprite_mat), s.len() - 1, fg);
                    }
                },
                None => {},
            }
        }
    }
}

/// Membership of an entry with a small identity is unchanged when the
/// group either stays as it is or gains an entry with a larger identity.
proof fn lemma_push_membership(g0: Seq<(usize, usize)>, entry: (usize, usize), pushed_id: int, g: Seq<
    (usize, usize),
>)
    requires
        entry.0 < pushed_id,
        g == g0 || (g.len() == g0.len() + 1 && g0 =~= g.take(g.len() - 1) && g.last().0
            == pushed_id),
    ensures
        g.contains(entry) <==> g0.contains(entry),
{
    if g =~= g0 {
    } else {
        if g0.contains(entry) {
            let w = choose|w: int| 0 <= w < g0.len() && g0[w] == entry;
            assert(g[w] == entry);
        }
        if g.contains(entry) {
            let w = choose|w: int| 0 <= w < g.len() && g[w] == entry;
            assert(w < g.len() - 1);
            assert(g0[w] == entry);
        }
    }
}

/// The live entities grouped by sorting layer; the fixed draw order is
/// the whole background group, then the whole foreground group.
pub struct LayerGroups {
    pub background: Vec<(usize, usize)>,
    pub foreground: Vec<(usize, usize)>,
}

/// Partition the live entities into their draw groups, skipping holes
/// and keeping registry (identity-ascending) order within each group.
pub fn group_by_sorting_layer(entities: &Vec<Option<Entity>>) -> (r: LayerGroups)
    ensures
        r.background@ == layer_entries(entities@, SortingLayer::Background),
        r.foreground@ == layer_entries(entities@, SortingLayer::Foreground),
{
    let mut background: Vec<(usize, usize)> = Vec::new();
    let mut foreground: Vec<(usize, usize)> = Vec::new();
    let n: usize = entities.len();
    let mut i: usize = 0;
    while i < n
        invariant
            i <= n,
            n == entities@.len(),
            background@ == layer_entries(entities@.take(i as int), SortingLayer::Background),
            foreground@ == layer_entries(entities@.take(i as int), SortingLayer::Foreground),
        decreases n - i,
    {
        match &entities[i] {
            Some(e) => {
                let pair: (usize, usize) = (e.get_id(), e.sprite_mat);
                match e.get_sorting_layer() {
                    SortingLayer::Background => background.push(pair),
                    SortingLayer::Foreground => foreground.push(pair),
                }
            },
            None => {},
        }
        i = i + 1;
        proof {
            assert(entities@.take(i as int).drop_last() =~= entities@.take(i as int - 1));
            assert(entities@.take(i as int).last() == entities@[i as int - 1]);
        }
    }
    proof {
        assert(entities@.take(n as int) =~= entities@);
    }
    LayerGroups { background, foreground }
}

/// One draw call: bind the material's resource group, then draw exactly
/// the six pre-offset indices of one entity. Base vertex is always zero
/// because the indices already embed the entity's vertex offset.
#[derive(Clone, Copy, Debug, PartialEq, Eq, Structural)]
pub struct DrawCommand {
    pub material: usize,
    pub index_start: u32,
    pub index_end: u32,
}

/// The draw command of one `(identity, material)` entry.
pub open spec fn command_matches(c: DrawCommand, entry: (usize, usize)) -> bool {
    &&& c.material == entry.1
    &&& c.index_start == 6 * entry.0
    &&& c.index_end == 6 * entry.0 + 6
}

/// Lay out the frame's draw calls: every background entry in group
/// order, then every foreground entry in group order, one command per
/// entry — so every entity gets its material bound and its own index
/// range drawn, and the background never draws after the foreground.
pub fn build_draw_list(groups: &LayerGroups) -> (r: Vec<DrawCommand>)
    requires
        entries_below(groups.background@, MAX_CAPACITY + 1),
        entries_below(groups.foreground@, MAX_CAPACITY + 1),
    ensures
        r@.len() == groups.background@.len() + groups.foreground@.len(),
        forall|k: int| 0 <= k < groups.background@.len() ==> command_matches(
            #[trigger] r@[k],
            groups.background@[k],
        ),
        forall|k: int| groups.background@.len() <= k < r@.len() ==> command_matches(
            #[trigger] r@[k],
            groups.foreground@[k - groups.background@.len()],
        ),
        expand_commands(r@) == entry_chunks(groups.background@) + entry_chunks(
            groups.foreground@,
        ),
{
    let mut r: Vec<DrawCommand> = Vec::new();
    let mut i: usize = 0;
    let nb: usize = groups.background.len();
    proof {
        assert(expand_commands(r@) =~= entry_chunks(groups.background@.take(0)));
    }
    while i < nb
        invariant
            i <= nb,
            nb == groups.background@.len(),
            entries_below(groups.background@, MAX_CAPACITY + 1),
            r@.len() == i,
            forall|k: int| 0 <= k < i ==> command_matches(#[trigger] r@[k], groups.background@[k]),
            expand_commands(r@) == entry_chunks(groups.background@.take(i as int)),
        decreases nb - i,
    {
        let entry: (usize, usize) = groups.background[i];
        let start: u32 = 6 * (entry.0 as u32);
        let ghost pre = r@;
        let cmd: DrawCommand = DrawCommand {
            material: entry.1,
            index_start: start,
            index_end: start + 6,
        };
        r.push(cmd);
        i = i + 1;
        proof {
            assert(r@.drop_last() =~= pre);
            assert(expand_command(cmd) =~= seq![(cmd.material, cmd.index_start)]);
            assert(entry_chunks(groups.background@.take(i as int)) =~= entry_chunks(
                groups.background@.take(i as int - 1),
            ).push((entry.1, start)));
            assert(expand_commands(r@) =~= entry_chunks(groups.background@.take(i as int)));
        }
    }
    proof {
        assert(groups.background@.take(nb as int) =~= groups.background@);
        assert(entry_chunks(groups.background@) + entry_chunks(groups.foreground@.take(0))
            =~= entry_chunks(groups.background@));
    }
    let mut j: usize = 0;
    let nf: usize = groups.foreground.len();
    while j < nf
        invariant
            j <= nf,
            nb == groups.background@.len(),
            nf == groups.foreground@.len(),
            entries_below(groups.foreground@, MAX_CAPACITY + 1),
            r@.len() == nb + j,
            forall|k: int| 0 <= k < nb ==> command_matches(#[trigger] r@[k], groups.background@[k]),
            forall|k: int| nb <= k < r@.len() ==> command_matches(
                #[trigger] r@[k],
                groups.foreground@[k - nb],
            ),
            expand_commands(r@) == entry_chunks(groups.background@) + entry_chunks(
                groups.foreground@.take(j as int),
            ),
        decreases nf - j,
    {
        let entry: (usize, usize) = groups.foreground[j];
        let start: u32 = 6 * (entry.0 as u32);
        let ghost pre = r@;
        let cmd: DrawCommand = DrawCommand {
            material: entry.1,
            index_start: start,
            index_end: start + 6,
        };
        r.push(cmd);
        j = j + 1;
        proof {
            assert(r@.drop_last() =~= pre);
            assert(expand_command(cmd) =~= seq![(cmd.material, cmd.index_start)]);
            assert(entry_chunks(groups.foreground@.take(j as int)) =~= entry_chunks(
                groups.foreground@.take(j as int - 1),
            ).push((entry.1, start)));
            assert(expand_commands(r@) =~= entry_chunks(groups.background@) + entry_chunks(
                groups.foreground@.take(j as int),
            ));
        }
    }
    proof {
        assert(groups.foreground@.take(nf as int) =~= groups.foreground@);
    }
    r
}

/// A command's index range is well formed: it covers whole six-index
/// entity blocks.
pub open spec fn command_wf(c: DrawCommand) -> bool {
    &&& c.index_start <= c.index_end
    &&& (c.index_end - c.index_start) % 6 == 0
}

/// The per-entity `(material, first index)` chunks a command draws: one
/// for each six-index block of its range, all bound to its material.
pub open spec fn expand_command(c: DrawCommand) -> Seq<(usize, u32)> {
    Seq::new(
        ((c.index_end - c.index_start) / 6) as nat,
        |k: int| (c.material, (c.index_start + 6 * k) as u32),
    )
}

/// Everything a command list draws, command by command, chunk by chunk.
pub open spec fn expand_commands(cmds: Seq<DrawCommand>) -> Seq<(usize, u32)>
    decreases cmds.len(),
{
    if cmds.len() == 0 {
        Seq::empty()
    } else {
        expand_commands(cmds.drop_last()) + expand_command(cmds.last())
    }
}

/// The chunks a layer group asks to be drawn: one per entry, each the
/// entry's material over the entity's own index block.
pub open spec fn entry_chunks(g: Seq<(usize, usize)>) -> Seq<(usize, u32)> {
    Seq::new(g.len(), |k: int| ((g[k].1, (6 * g[k].0) as u32)))
}

/// Append to `r` the draw calls of one group, merging each entry whose
/// index block continues the previous command's range under the same
/// material into that command.
fn append_batched(r: &mut Vec<DrawCommand>, g: &Vec<(usize, usize)>)
    requires
        entries_below(g@, MAX_CAPACITY + 1),
        forall|k: int| 0 <= k < old(r)@.len() ==> command_wf(#[trigger] old(r)@[k]),
    ensures
        expand_commands(final(r)@) == expand_commands(old(r)@) + entry_chunks(g@),
        forall|k: int| 0 <= k < final(r)@.len() ==> command_wf(#[trigger] final(r)@[k]),
{
    let ghost r0 = r@;
    let n: usize = g.len();
    let mut i: usize = 0;
    proof {
        assert(entry_chunks(g@.take(0)) =~= Seq::<(usize, u32)>::empty());
        assert(expand_commands(r@) + entry_chunks(g@.take(0)) =~= expand_commands(r@));
    }
    while i < n
        invariant
            i <= n,
            n == g@.len(),
            entries_below(g@, MAX_CAPACITY + 1),
            forall|k: int| 0 <= k < r@.len() ==> command_wf(#[trigger] r@[k]),
            expand_commands(r@) == expand_commands(r0) + entry_chunks(g@.take(i as int)),
        decreases n - i,
    {
        let entry: (usize, usize) = g[i];
        let start: u32 = 6 * (entry.0 as u32);
        let ghost pre = r@;
        let mut merged: bool = false;
        if r.len() > 0 {
            let last: DrawCommand = r[r.len() - 1];
            if last.material == entry.1 && last.index_end == start {
                let extended: DrawCommand = DrawCommand {
                    material: last.material,
                    index_start: last.index_start,
                    index_end: start + 6,
                };
                let end: usize = r.len() - 1;
                r.set(end, extended);
                merged = true;
                proof {
                    lemma_expand_extend(pre, r@, extended);
                }
            }
        }
        if !merged {
            let fresh: DrawCommand = DrawCommand {
                material: entry.1,
                index_start: start,
                index_end: start + 6,
            };
            r.push(fresh);
            proof {
                assert(r@.drop_last() =~= pre);
                assert(expand_command(fresh) =~= seq![(fresh.material, fresh.index_start)]);
            }
        }
        i = i + 1;
        proof {
            assert(entry_chunks(g@.take(i as int)) =~= entry_chunks(
                g@.take(i as int - 1),
            ).push((entry.1, start)));
            assert(expand_commands(r@) =~= expand_commands(r0) + entry_chunks(g@.take(i as int)));
        }
    }
    proof {
        assert(g@.take(n as int) =~= g@);
    }
}

/// Extending the last command by one block appends exactly one chunk.
proof fn lemma_expand_extend(pre: Seq<DrawCommand>, cur: Seq<DrawCommand>, extended: DrawCommand)
    requires
        pre.len() > 0,
        command_wf(pre.last()),
        cur == pre.update(pre.len() - 1, extended),
        extended.material == pre.last().material,
        extended.index_start == pre.last().index_start,
        extended.index_end == pre.last().index_end + 6,
    ensures
        expand_commands(cur) == expand_commands(pre) + seq![
            (pre.last().material, pre.last().index_end),
        ],
{
    let last = pre.last();
    let d = last.index_end - last.index_start;
    vstd::arithmetic::div_mod::lemma_fundamental_div_mod(d as int, 6);
    vstd::arithmetic::div_mod::lemma_fundamental_div_mod_converse(
        d + 6,
        6,
        d as int / 6 + 1,
        0,
    );
    assert(cur.drop_last() =~= pre.drop_last());
    assert(cur.last() == extended);
    assert(expand_command(extended) =~= expand_command(last).push(
        (last.material, last.index_end),
    ));
    assert(expand_commands(pre.drop_last()) + expand_command(extended) =~= (expand_commands(
        pre.drop_last(),
    ) + expand_command(last)) + seq![(last.material, last.index_end)]);
}

/// Lay out the frame's draw calls with run batching: consecutive
/// entities that share a material and sit in adjacent index blocks are
/// drawn by one spanning command. What is drawn — which materials over
/// which index blocks, in which order — is exactly what
/// [`build_draw_list`] draws; only the command count shrinks.
pub fn build_batched_draw_list(groups: &LayerGroups) -> (r: Vec<DrawCommand>)
    requires
        entries_below(groups.background@, MAX_CAPACITY + 1),
        entries_below(groups.foreground@, MAX_CAPACITY + 1),
    ensures
        expand_commands(r@) == entry_chunks(groups.background@) + entry_chunks(
            groups.foreground@,
        ),
        forall|k: int| 0 <= k < r@.len() ==> command_wf(#[trigger] r@[k]),
{
    let mut r: Vec<DrawCommand> = Vec::new();
    proof {
        assert(r@ =~= Seq::<DrawCommand>::empty());
    }
    append_batched(&mut r, &groups.background);
    append_batched(&mut r, &groups.foreground);
    proof {
        assert((Seq::<(usize, u32)>::empty() + entry_chunks(groups.background@)) + entry_chunks(
            groups.foreground@,
        ) =~= entry_chunks(groups.background@) + entry_chunks(groups.foreground@));
    }
    r
}

/// The two fixed-capacity shared buffers and the camera uniform. The
/// capacity is chosen once at creation; writes past it are rejected by
/// contract, and nothing here ever grows or rewrites the index buffer.
pub struct RenderBuffers {
    pub max_entities: usize,
    pub vertex_data: Vec<RenderVertex>,
    pub index_data: Vec<u32>,
    pub camera_uniform: CameraUniform,
}

impl RenderBuffers {
    /// The buffer invariant: the vertex buffer holds four records per
    /// slot and the index buffer holds the initialization-time contents.
    pub open spec fn wf(self) -> bool {
        &&& self.max_entities <= MAX_CAPACITY
        &&& self.vertex_data@.len() == 4 * self.max_entities
        &&& index_buffer_ok(self.index_data@, self.max_entities as int)
    }

    /// Allocate both buffers for at most `max_entities` entities: the
    /// vertex buffer zero-filled, the index buffer pre-populated with
    /// each slot's six pre-offset indices.
    pub fn new(max_entities: usize) -> (b: RenderBuffers)
        requires
            max_entities <= MAX_CAPACITY,
        ensures
            b.wf(),
            b.max_entities == max_entities,
            forall|j: int| 0 <= j < b.vertex_data@.len() ==> b.vertex_data@[j]
                == zero_render_vertex(),
            b.camera_uniform.view_proj == mat4_identity(),
    {
        let mut vertex_data: Vec<RenderVertex> = Vec::new();
        let total: usize = 4 * max_entities;
        while vertex_data.len() < total
            invariant
                vertex_data@.len() <= total,
                forall|j: int| 0 <= j < vertex_data@.len() ==> vertex_data@[j]
                    == zero_render_vertex(),
            decreases total - vertex_data@.len(),
        {
            let v: RenderVertex = RenderVertex {
                position: crate::math::Vec3 { x: 0, y: 0, z: 0 },
                tex_coords: crate::math::Vec2 { x: 0, y: 0 },
                transform: crate::math::Mat4 {
                    c0: crate::math::Vec4 { x: 0, y: 0, z: 0, w: 0 },
                    c1: crate::math::Vec4 { x: 0, y: 0, z: 0, w: 0 },
                    c2: crate::math::Vec4 { x: 0, y: 0, z: 0, w: 0 },
                    c3: crate::math::Vec4 { x: 0, y: 0, z: 0, w: 0 },
                },
            };
            vertex_data.push(v);
        }
        let mut index_data: Vec<u32> = Vec::new();
        let mut e: usize = 0;
        while e < max_entities
            invariant
                e <= max_entities,
                max_entities <= MAX_CAPACITY,
                index_data@.len() == 6 * e,
                forall|j: int| 0 <= j < index_data@.len() ==> #[trigger] index_data@[j]
                    == quad_index(j / 6, j % 6),
            decreases max_entities - e,
        {
            let base: u32 = 4 * (e as u32);
            index_data.push(base);
            index_data.push(base + 1);
            index_data.push(base + 3);
            index_data.push(base + 1);
            index_data.push(base + 2);
            index_data.push(base + 3);
            proof {
                let ei = e as int;
                vstd::arithmetic::div_mod::lemma_fundamental_div_mod_converse(6 * ei + 0, 6, ei, 0);
                vstd::arithmetic::div_mod::lemma_fundamental_div_mod_converse(6 * ei + 1, 6, ei, 1);
                vstd::arithmetic::div_mod::lemma_fundamental_div_mod_converse(6 * ei + 2, 6, ei, 2);
                vstd::arithmetic::div_mod::lemma_fundamental_div_mod_converse(6 * ei + 3, 6, ei, 3);
                vstd::arithmetic::div_mod::lemma_fundamental_div_mod_converse(6 * ei + 4, 6, ei, 4);
                vstd::arithmetic::div_mod::lemma_fundamental_div_mod_converse(6 * ei + 5, 6, ei, 5);
                assert forall|j: int| 0 <= j < index_data@.len() implies #[trigger] index_data@[j]
                    == quad_index(j / 6, j % 6) by {
                    if j >= 6 * ei {
                        assert(index_data@[6 * ei + (j - 6 * ei)] == quad_index(ei, j - 6 * ei));
                    }
                }
            }
            e = e + 1;
        }
        RenderBuffers {
            max_entities,
            vertex_data,
            index_data,
            camera_uniform: CameraUniform::new(),
        }
    }

    /// The byte offset at which entity `id`'s slot begins in the GPU
    /// vertex buffer.
    pub fn entity_byte_offset(id: usize) -> (r: u64)
        requires
            id <= MAX_CAPACITY,
        ensures
            r == slot_byte_offset(id as int),
    {
        proof {
            assert(id * (SLOT_BYTES as int) <= (0x0fff_ffff as int) * 336) by (nonlinear_arith)
                requires
                    0 <= id <= 0x0fff_ffff,
                    SLOT_BYTES == 336,
            ;
        }
        (id as u64) * (SLOT_BYTES as u64)
    }

    /// Overwrite entity `id`'s four vertex records, and nothing else: all
    /// other slots, the whole index buffer, and the camera uniform keep
    /// their contents.
    pub fn write_entity(&mut self, id: usize, verts: Vec<RenderVertex>)
        requires
            old(self).wf(),
            id < old(self).max_entities,
            verts@.len() == 4,
        ensures
            final(self).wf(),
            final(self).max_entities == old(self).max_entities,
            final(self).index_data@ == old(self).index_data@,
            final(self).camera_uniform == old(self).camera_uniform,
            final(self).vertex_data@ == write_slot(old(self).vertex_data@, id as int, verts@),
            slot_of(final(self).vertex_data@, id as int) == verts@,
            final(self).vertex_data@.len() == old(self).vertex_data@.len(),
            forall|j: int| 0 <= j < old(self).vertex_data@.len() && !(4 * id <= j < 4 * id + 4)
                ==> final(self).vertex_data@[j] == old(self).vertex_data@[j],
    {
        let base: usize = 4 * id;
        let v0: RenderVertex = verts[0];
        let v1: RenderVertex = verts[1];
        let v2: RenderVertex = verts[2];
        let v3: RenderVertex = verts[3];
        self.vertex_data.set(base, v0);
        self.vertex_data.set(base + 1, v1);
        self.vertex_data.set(base + 2, v2);
        self.vertex_data.set(base + 3, v3);
        proof {
            assert(slot_of(self.vertex_data@, id as int) =~= verts@);
        }
    }

    /// Read back the four vertex records of entity `id`'s slot.
    pub fn read_entity(&self, id: usize) -> (r: Vec<RenderVertex>)
        requires
            self.wf(),
            id < self.max_entities,
        ensures
            r@ == slot_of(self.vertex_data@, id as int),
    {
        let base: usize = 4 * id;
        let mut r: Vec<RenderVertex> = Vec::new();
        r.push(self.vertex_data[base]);
        r.push(self.vertex_data[base + 1]);
        r.push(self.vertex_data[base + 2]);
        r.push(self.vertex_data[base + 3]);
        proof {
            assert(r@ =~= slot_of(self.vertex_data@, id as int));
        }
        r
    }

    /// Overwrite the camera uniform, unconditionally, with the camera's
    /// current view-projection matrix. The entity buffers are untouched.
    pub fn write_camera(&mut self, camera: &Camera)
        requires
            old(self).wf(),
            camera_in_bounds(*camera),
        ensures
            final(self).wf(),
            final(self).max_entities == old(self).max_entities,
            final(self).vertex_data@ == old(self).vertex_data@,
            final(self).index_data@ == old(self).index_data@,
            final(self).camera_uniform.view_proj == spec_view_projection(*camera),
    {
        self.camera_uniform.update_view_proj(camera);
    }
}

} // verus!
