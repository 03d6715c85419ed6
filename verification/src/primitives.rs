//! World-space primitives and text: the options a group of vertices is drawn
//! with, the submit-and-latch queues that give every frame a stable copy of
//! the submitted groups, the registry of custom shader effects, and the
//! ordered list of draw calls a frame issues.
//!
//! Vertices are generic: the queues never look inside them.
use vstd::prelude::*;
use vstd::string::StringExecFns;
use std::collections::HashMap;
use crate::registry::FontAtlases;

verus! {

broadcast use {vstd::std_specs::hash::group_hash_axioms, vstd::seq_lib::group_filter_ensures};

/// The most vertices one batch (and one GPU vertex buffer) holds.
pub const MAX_VERTEX_BUFFER_CAPACITY: usize = 65536;

/// How a group's vertices are connected.
#[derive(PartialEq, Eq, Structural, Clone, Copy, Debug)]
pub enum PrimitiveType {
    Triangles,
    Lines,
}

/// How a custom effect's pixels blend with the render target.
#[derive(PartialEq, Eq, Structural, Clone, Copy, Debug, Hash)]
pub enum BlendMode {
    /// Alpha blending, depth tested without depth writes.
    Transparent,
    /// No blending, no depth test.
    Opaque,
}

impl Default for BlendMode {
    fn default() -> (b: Self)
        ensures
            b == BlendMode::Transparent,
    {
        BlendMode::Transparent
    }
}

/// How a group of primitives is drawn.
#[derive(PartialEq, Eq, Structural, Clone, Copy, Debug, Hash)]
pub struct PrimitiveOptions {
    pub ignore_depth_stencil: bool,
    pub write_to_depth: bool,
    pub depth_bias: i32,
    pub cull_back: bool,
    pub wireframe: bool,
    pub scissor_enabled: bool,
    pub opaque: bool,
    pub stencil_ref: u8,
    pub stencil_write: bool,
    pub stencil_test: bool,
    /// Batches draw in ascending priority.
    pub render_priority: i32,
}

pub open spec fn default_options() -> PrimitiveOptions {
    PrimitiveOptions {
        ignore_depth_stencil: false,
        write_to_depth: false,
        depth_bias: 0,
        cull_back: false,
        wireframe: false,
        scissor_enabled: true,
        opaque: false,
        stencil_ref: 0,
        stencil_write: false,
        stencil_test: false,
        render_priority: 0,
    }
}

impl Default for PrimitiveOptions {
    /// Depth tested without writes, no culling, filled, scissored,
    /// transparent, no stencil, priority 0.
    fn default() -> (o: Self)
        ensures
            o == default_options(),
    {
        PrimitiveOptions {
            ignore_depth_stencil: false,
            write_to_depth: false,
            depth_bias: 0,
            cull_back: false,
            wireframe: false,
            scissor_enabled: true,
            opaque: false,
            stencil_ref: 0,
            stencil_write: false,
            stencil_test: false,
            render_priority: 0,
        }
    }
}

/// The rasterizer state a batch is drawn with.
#[derive(PartialEq, Eq, Structural, Clone, Copy, Debug)]
pub enum RasterState {
    CullBackWireframe,
    CullBack,
    Wireframe,
    CullNone,
}

/// The depth-stencil state a batch is drawn with.
#[derive(PartialEq, Eq, Structural, Clone, Copy, Debug)]
pub enum DepthState {
    /// No depth test.
    Disabled,
    /// Depth tested and written.
    Write,
    /// Depth tested, not written.
    ReadOnly,
}

/// The blend state a batch is drawn with.
#[derive(PartialEq, Eq, Structural, Clone, Copy, Debug)]
pub enum BlendState {
    Transparent,
    Opaque,
}

pub open spec fn raster_spec(o: PrimitiveOptions) -> RasterState {
    if o.cull_back && o.wireframe {
        RasterState::CullBackWireframe
    } else if o.cull_back {
        RasterState::CullBack
    } else if o.wireframe {
        RasterState::Wireframe
    } else {
        RasterState::CullNone
    }
}

/// The rasterizer state for `o`: back-face culling and wireframe as asked.
pub fn rasterizer_state(o: &PrimitiveOptions) -> (r: RasterState)
    ensures
        r == raster_spec(*o),
{
    if o.cull_back && o.wireframe {
        RasterState::CullBackWireframe
    } else if o.cull_back {
        RasterState::CullBack
    } else if o.wireframe {
        RasterState::Wireframe
    } else {
        RasterState::CullNone
    }
}

pub open spec fn depth_spec(o: PrimitiveOptions, has_depth_view: bool) -> DepthState {
    if o.ignore_depth_stencil || !has_depth_view {
        DepthState::Disabled
    } else if o.write_to_depth {
        DepthState::Write
    } else {
        DepthState::ReadOnly
    }
}

/// The depth-stencil state for `o`: none without a depth buffer or when the
/// group ignores depth, else tested and written as asked.
pub fn depth_stencil_state(o: &PrimitiveOptions, has_depth_view: bool) -> (d: DepthState)
    ensures
        d == depth_spec(*o, has_depth_view),
{
    if o.ignore_depth_stencil || !has_depth_view {
        DepthState::Disabled
    } else if o.write_to_depth {
        DepthState::Write
    } else {
        DepthState::ReadOnly
    }
}

/// The depth-stencil state of 3D text, which is never written to depth.
pub fn text_depth_state(o: &PrimitiveOptions, has_depth_view: bool) -> (d: DepthState)
    ensures
        d == if o.ignore_depth_stencil || !has_depth_view { DepthState::Disabled } else { DepthState::ReadOnly },
{
    if o.ignore_depth_stencil || !has_depth_view {
        DepthState::Disabled
    } else {
        DepthState::ReadOnly
    }
}

pub open spec fn blend_spec(o: PrimitiveOptions, effect_blend: Option<BlendMode>) -> BlendState {
    if o.opaque {
        BlendState::Opaque
    } else {
        match effect_blend {
            Some(BlendMode::Opaque) => BlendState::Opaque,
            _ => BlendState::Transparent,
        }
    }
}

/// The blend state for `o`: opaque when the group asks for it, else the
/// custom effect's blend mode, else alpha blending.
pub fn blend_state(o: &PrimitiveOptions, effect_blend: Option<BlendMode>) -> (b: BlendState)
    ensures
        b == blend_spec(*o, effect_blend),
{
    if o.opaque {
        BlendState::Opaque
    } else {
        match effect_blend {
            Some(BlendMode::Opaque) => BlendState::Opaque,
            _ => BlendState::Transparent,
        }
    }
}

/// A registered custom shader effect: its blend mode, its GPU resources
/// (`R`), the textures and samplers bound at shader slots, and the data of
/// its constant buffer.
pub struct CustomEffect<R, T, S> {
    pub effect_id: String,
    pub blend_mode: BlendMode,
    pub resources: R,
    pub textures: HashMap<u32, T>,
    pub samplers: HashMap<u32, S>,
    pub constant_data: Vec<u8>,
}

/// The custom effects of a renderer, by id. The first registration of an id
/// wins.
pub struct EffectRegistry<R, T, S> {
    effects: Vec<CustomEffect<R, T, S>>,
}

pub open spec fn effect_ids<R, T, S>(s: Seq<CustomEffect<R, T, S>>) -> Seq<Seq<char>> {
    s.map_values(|e: CustomEffect<R, T, S>| e.effect_id@)
}

pub open spec fn has_effect<R, T, S>(s: Seq<CustomEffect<R, T, S>>, id: Seq<char>) -> bool {
    exists|i: int| 0 <= i < s.len() && #[trigger] s[i].effect_id@ == id
}

/// The position of effect `id` (ids are unique).
pub open spec fn effect_index<R, T, S>(s: Seq<CustomEffect<R, T, S>>, id: Seq<char>) -> int {
    choose|i: int| 0 <= i < s.len() && #[trigger] s[i].effect_id@ == id
}

/// The texture bindings after binding each `(slot, texture, sampler)` of
/// `items` in order.
pub open spec fn bound_textures<T, S>(m: Map<u32, T>, items: Seq<(u32, T, S)>) -> Map<u32, T>
    decreases items.len(),
{
    if items.len() == 0 {
        m
    } else {
        bound_textures(m, items.drop_last()).insert(items.last().0, items.last().1)
    }
}

/// The sampler bindings after binding each `(slot, texture, sampler)` of
/// `items` in order.
pub open spec fn bound_samplers<T, S>(m: Map<u32, S>, items: Seq<(u32, T, S)>) -> Map<u32, S>
    decreases items.len(),
{
    if items.len() == 0 {
        m
    } else {
        bound_samplers(m, items.drop_last()).insert(items.last().0, items.last().2)
    }
}

impl<R, T, S> EffectRegistry<R, T, S> {
    pub closed spec fn effects(&self) -> Seq<CustomEffect<R, T, S>> {
        self.effects@
    }

    /// Effect ids are unique.
    pub open spec fn wf(&self) -> bool {
        forall|i: int, j: int|
            0 <= i < self.effects().len() && 0 <= j < self.effects().len() && i != j
                ==> #[trigger] self.effects()[i].effect_id@ != #[trigger] self.effects()[j].effect_id@
    }

    pub fn new() -> (r: Self)
        ensures
            r.wf(),
            r.effects().len() == 0,
    {
        EffectRegistry { effects: Vec::new() }
    }

    /// The position of effect `id`, if registered.
    pub fn find(&self, id: &str) -> (r: Option<usize>)
        requires
            self.wf(),
        ensures
            match r {
                Some(i) => i < self.effects().len() && self.effects()[i as int].effect_id@ == id@
                    && effect_index(self.effects(), id@) == i as int,
                None => !has_effect(self.effects(), id@),
            },
    {
        let key = String::from_str(id);
        let mut i: usize = 0;
        while i < self.effects.len()
            invariant
                key@ == id@,
                self.wf(),
                i <= self.effects@.len(),
                forall|j: int| 0 <= j < i ==> #[trigger] self.effects@[j].effect_id@ != id@,
            decreases self.effects@.len() - i,
        {
            if self.effects[i].effect_id == key {
                proof {
                    let c = effect_index(self.effects@, id@);
                    assert(self.effects@[i as int].effect_id@ == id@);
                    if c != i as int {
                        assert(self.effects@[c].effect_id@ != self.effects@[i as int].effect_id@);
                    }
                }
                return Some(i);
            }
            i = i + 1;
        }
        None
    }

    /// Whether effect `id` is registered (its GPU resources are then not
    /// created again).
    pub fn contains(&self, id: &str) -> (b: bool)
        requires
            self.wf(),
        ensures
            b == has_effect(self.effects(), id@),
    {
        self.find(id).is_some()
    }

    /// The blend mode of effect `id`, if registered.
    pub fn blend_of(&self, id: &str) -> (b: Option<BlendMode>)
        requires
            self.wf(),
        ensures
            match b {
                Some(m) => has_effect(self.effects(), id@) && m == self.effects()[effect_index(self.effects(), id@)].blend_mode,
                None => !has_effect(self.effects(), id@),
            },
    {
        match self.find(id) {
            Some(i) => Some(self.effects[i].blend_mode),
            None => None,
        }
    }

    /// Registers effect `id` with its GPU resources, unless an effect of
    /// that id exists (then nothing changes). Returns whether it was added.
    pub fn register_custom_pixel_shader(&mut self, id: &str, blend_mode: BlendMode, resources: R) -> (added: bool)
        requires
            old(self).wf(),
        ensures
            final(self).wf(),
            added == !has_effect(old(self).effects(), id@),
            added ==> final(self).effects().len() == old(self).effects().len() + 1
                && final(self).effects().drop_last() == old(self).effects()
                && final(self).effects().last().effect_id@ == id@
                && final(self).effects().last().blend_mode == blend_mode
                && final(self).effects().last().resources == resources
                && final(self).effects().last().textures@ == Map::<u32, T>::empty()
                && final(self).effects().last().samplers@ == Map::<u32, S>::empty()
                && final(self).effects().last().constant_data@.len() == 0,
            !added ==> final(self).effects() == old(self).effects(),
    {
        if self.contains(id) {
            return false;
        }
        let ghost before = self.effects@;
        self.effects.push(CustomEffect {
            effect_id: String::from_str(id),
            blend_mode,
            resources,
            textures: HashMap::new(),
            samplers: HashMap::new(),
            constant_data: Vec::new(),
        });
        proof {
            assert(self.effects@.drop_last() =~= before);
            assert forall|i: int, j: int|
                0 <= i < self.effects@.len() && 0 <= j < self.effects@.len() && i != j
                implies #[trigger] self.effects@[i].effect_id@ != #[trigger] self.effects@[j].effect_id@ by {
                if i < before.len() && j < before.len() {
                    assert(self.effects@[i] == before[i] && self.effects@[j] == before[j]);
                } else if i < before.len() {
                    assert(self.effects@[i] == before[i]);
                    if before[i].effect_id@ == id@ {
                        assert(has_effect(before, id@));
                    }
                } else {
                    assert(self.effects@[j] == before[j]);
                    if before[j].effect_id@ == id@ {
                        assert(has_effect(before, id@));
                    }
                }
            }
        }
        true
    }

    /// Binds `texture` and `sampler` at shader slot `slot` of effect `id`.
    /// Nothing happens for an unknown effect.
    pub fn set_custom_effect_texture_at_slot(&mut self, id: &str, slot: u32, texture: T, sampler: S)
        requires
            old(self).wf(),
        ensures
            final(self).wf(),
            final(self).effects().len() == old(self).effects().len(),
            has_effect(old(self).effects(), id@) ==> {
                let i = effect_index(old(self).effects(), id@);
                &&& final(self).effects()[i].textures@ == old(self).effects()[i].textures@.insert(slot, texture)
                &&& final(self).effects()[i].samplers@ == old(self).effects()[i].samplers@.insert(slot, sampler)
                &&& final(self).effects()[i].effect_id == old(self).effects()[i].effect_id
                &&& final(self).effects()[i].blend_mode == old(self).effects()[i].blend_mode
                &&& final(self).effects()[i].constant_data@ == old(self).effects()[i].constant_data@
                &&& forall|j: int| 0 <= j < old(self).effects().len() && j != i ==> #[trigger] final(self).effects()[j] == old(self).effects()[j]
            },
            !has_effect(old(self).effects(), id@) ==> final(self).effects() == old(self).effects(),
    {
        match self.find(id) {
            Some(i) => {
                let mut e = self.effects.remove(i);
                e.textures.insert(slot, texture);
                e.samplers.insert(slot, sampler);
                self.effects.insert(i, e);
                proof { self.lemma_ids_kept(old(self).effects@, i as int); }
            },
            None => {},
        }
    }

    /// Binds each `(slot, texture, sampler)` of `items`, in order, at the
    /// shader slots of effect `id`. Nothing happens for an unknown effect.
    pub fn set_custom_effect_textures_bulk(&mut self, id: &str, items: Vec<(u32, T, S)>)
        requires
            old(self).wf(),
        ensures
            final(self).wf(),
            final(self).effects().len() == old(self).effects().len(),
            has_effect(old(self).effects(), id@) ==> {
                let i = effect_index(old(self).effects(), id@);
                &&& final(self).effects()[i].textures@ == bound_textures(old(self).effects()[i].textures@, items@)
                &&& final(self).effects()[i].samplers@ == bound_samplers(old(self).effects()[i].samplers@, items@)
                &&& final(self).effects()[i].effect_id == old(self).effects()[i].effect_id
                &&& final(self).effects()[i].blend_mode == old(self).effects()[i].blend_mode
                &&& final(self).effects()[i].constant_data@ == old(self).effects()[i].constant_data@
                &&& forall|j: int| 0 <= j < old(self).effects().len() && j != i ==> #[trigger] final(self).effects()[j] == old(self).effects()[j]
            },
            !has_effect(old(self).effects(), id@) ==> final(self).effects() == old(self).effects(),
    {
        match self.find(id) {
            Some(i) => {
                let mut e = self.effects.remove(i);
                let ghost t0 = e.textures@;
                let ghost s0 = e.samplers@;
                let ghost all = items@;
                let mut rest = items;
                let ghost mut k: int = 0;
                while rest.len() > 0
                    invariant
                        0 <= k <= all.len(),
                        rest@ == all.subrange(k, all.len() as int),
                        e.textures@ == bound_textures(t0, all.subrange(0, k)),
                        e.samplers@ == bound_samplers(s0, all.subrange(0, k)),
                        e.effect_id == old(self).effects()[i as int].effect_id,
                        e.blend_mode == old(self).effects()[i as int].blend_mode,
                        e.constant_data@ == old(self).effects()[i as int].constant_data@,
                    decreases rest@.len(),
                {
                    let (slot, texture, sampler) = rest.remove(0);
                    proof {
                        let next = all.subrange(0, k + 1);
                        assert(next.drop_last() =~= all.subrange(0, k));
                        assert(next.last() == (slot, texture, sampler));
                    }
                    e.textures.insert(slot, texture);
                    e.samplers.insert(slot, sampler);
                    proof {
                        k = k + 1;
                        assert(rest@ =~= all.subrange(k, all.len() as int));
                    }
                }
                proof {
                    assert(all.subrange(0, all.len() as int) =~= all);
                }
                self.effects.insert(i, e);
                proof { self.lemma_ids_kept(old(self).effects@, i as int); }
            },
            None => {},
        }
    }

    /// Unbinds shader slot `slot` of effect `id`. Nothing happens for an
    /// unknown effect.
    pub fn clear_custom_effect_texture_at_slot(&mut self, id: &str, slot: u32)
        requires
            old(self).wf(),
        ensures
            final(self).wf(),
            final(self).effects().len() == old(self).effects().len(),
            has_effect(old(self).effects(), id@) ==> {
                let i = effect_index(old(self).effects(), id@);
                &&& final(self).effects()[i].textures@ == old(self).effects()[i].textures@.remove(slot)
                &&& final(self).effects()[i].samplers@ == old(self).effects()[i].samplers@.remove(slot)
                &&& final(self).effects()[i].effect_id == old(self).effects()[i].effect_id
                &&& final(self).effects()[i].blend_mode == old(self).effects()[i].blend_mode
                &&& final(self).effects()[i].constant_data@ == old(self).effects()[i].constant_data@
                &&& forall|j: int| 0 <= j < old(self).effects().len() && j != i ==> #[trigger] final(self).effects()[j] == old(self).effects()[j]
            },
            !has_effect(old(self).effects(), id@) ==> final(self).effects() == old(self).effects(),
    {
        match self.find(id) {
            Some(i) => {
                let mut e = self.effects.remove(i);
                e.textures.remove(&slot);
                e.samplers.remove(&slot);
                self.effects.insert(i, e);
                proof { self.lemma_ids_kept(old(self).effects@, i as int); }
            },
            None => {},
        }
    }

    /// Replaces the constant-buffer data of effect `id`. Nothing happens for
    /// an unknown effect.
    pub fn update_custom_effect_constants(&mut self, id: &str, data: &[u8])
        requires
            old(self).wf(),
        ensures
            final(self).wf(),
            final(self).effects().len() == old(self).effects().len(),
            has_effect(old(self).effects(), id@) ==> {
                let i = effect_index(old(self).effects(), id@);
                &&& final(self).effects()[i].constant_data@ == data@
                &&& final(self).effects()[i].effect_id == old(self).effects()[i].effect_id
                &&& final(self).effects()[i].blend_mode == old(self).effects()[i].blend_mode
                &&& final(self).effects()[i].textures == old(self).effects()[i].textures
                &&& final(self).effects()[i].samplers == old(self).effects()[i].samplers
                &&& forall|j: int| 0 <= j < old(self).effects().len() && j != i ==> #[trigger] final(self).effects()[j] == old(self).effects()[j]
            },
            !has_effect(old(self).effects(), id@) ==> final(self).effects() == old(self).effects(),
    {
        match self.find(id) {
            Some(i) => {
                let mut e = self.effects.remove(i);
                e.constant_data = vstd::slice::slice_to_vec(data);
                self.effects.insert(i, e);
                proof { self.lemma_ids_kept(old(self).effects@, i as int); }
            },
            None => {},
        }
    }

    /// Replacing the effect at `i` by one of the same id keeps ids unique.
    proof fn lemma_ids_kept(&self, before: Seq<CustomEffect<R, T, S>>, i: int)
        requires
            0 <= i < before.len(),
            self.effects@.len() == before.len(),
            self.effects@[i].effect_id == before[i].effect_id,
            forall|j: int| 0 <= j < before.len() && j != i ==> #[trigger] self.effects@[j] == before[j],
            forall|a: int, b: int| 0 <= a < before.len() && 0 <= b < before.len() && a != b
                ==> #[trigger] before[a].effect_id@ != #[trigger] before[b].effect_id@,
        ensures
            self.wf(),
    {
        assert forall|a: int, b: int|
            0 <= a < self.effects@.len() && 0 <= b < self.effects@.len() && a != b
            implies #[trigger] self.effects@[a].effect_id@ != #[trigger] self.effects@[b].effect_id@ by {
            assert(self.effects@[a].effect_id@ == before[a].effect_id@);
            assert(self.effects@[b].effect_id@ == before[b].effect_id@);
        }
    }
}


/// A submitted group of vertices: its id (within `scope`, the font of a
/// text group), the custom effect or font it is drawn with, its vertices and
/// its options.
pub struct PrimitiveGroup<V> {
    pub scope: Option<String>,
    pub group_id: String,
    pub effect_id: Option<String>,
    pub vertices: Vec<V>,
    pub options: PrimitiveOptions,
}

/// The vertices of all groups sharing an effect and options, ready to draw.
pub struct Batch<V> {
    pub effect_id: Option<String>,
    pub options: PrimitiveOptions,
    pub vertices: Vec<V>,
}

pub open spec fn opt_str(o: Option<String>) -> Option<Seq<char>> {
    match o {
        Some(s) => Some(s@),
        None => None,
    }
}

/// The identity of a group.
pub open spec fn group_ident<V>(g: PrimitiveGroup<V>) -> (Option<Seq<char>>, Seq<char>) {
    (opt_str(g.scope), g.group_id@)
}

/// The batch a group's vertices go to.
pub open spec fn group_key<V>(g: PrimitiveGroup<V>) -> (Option<Seq<char>>, PrimitiveOptions) {
    (opt_str(g.effect_id), g.options)
}

pub open spec fn batch_key<V>(b: Batch<V>) -> (Option<Seq<char>>, PrimitiveOptions) {
    (opt_str(b.effect_id), b.options)
}

/// The vertices of the groups with batch key `key`, in submission order.
pub open spec fn concat_for<V>(gs: Seq<PrimitiveGroup<V>>, key: (Option<Seq<char>>, PrimitiveOptions)) -> Seq<V>
    decreases gs.len(),
{
    if gs.len() == 0 {
        Seq::empty()
    } else {
        concat_for(gs.drop_last(), key) + if group_key(gs.last()) == key {
            gs.last().vertices@
        } else {
            Seq::empty()
        }
    }
}

/// `s` cut to the capacity of a vertex buffer.
pub open spec fn capped<V>(s: Seq<V>) -> Seq<V> {
    if s.len() <= MAX_VERTEX_BUFFER_CAPACITY {
        s
    } else {
        s.take(MAX_VERTEX_BUFFER_CAPACITY as int)
    }
}

/// Appending to a capped buffer only what still fits gives the capped
/// concatenation.
pub proof fn lemma_capped_append<V>(a: Seq<V>, b: Seq<V>)
    ensures
        ({
            let room = MAX_VERTEX_BUFFER_CAPACITY - capped(a).len();
            let n = if b.len() < room { b.len() as int } else { room };
            capped(a) + b.take(n) == capped(a + b)
        }),
{
    let room = MAX_VERTEX_BUFFER_CAPACITY - capped(a).len();
    let n = if b.len() < room { b.len() as int } else { room };
    if a.len() >= MAX_VERTEX_BUFFER_CAPACITY {
        assert(capped(a) + b.take(n) =~= capped(a + b));
    } else {
        assert(capped(a) + b.take(n) =~= capped(a + b));
    }
}

/// Groups with no group of batch key `key` contribute no vertices to it.
proof fn lemma_concat_absent<V>(gs: Seq<PrimitiveGroup<V>>, key: (Option<Seq<char>>, PrimitiveOptions))
    requires
        forall|i: int| 0 <= i < gs.len() ==> #[trigger] group_key(gs[i]) != key,
    ensures
        concat_for(gs, key) == Seq::<V>::empty(),
    decreases gs.len(),
{
    if gs.len() > 0 {
        assert(group_key(gs[gs.len() - 1]) != key);
        lemma_concat_absent(gs.drop_last(), key);
        assert(concat_for(gs, key) =~= Seq::<V>::empty());
    }
}

/// The groups waiting in one table of a renderer (triangles, lines, custom
/// triangles, custom lines or text); group identities are unique.
pub struct PrimitiveQueue<V> {
    groups: Vec<PrimitiveGroup<V>>,
}

pub open spec fn other_ident<V>(scope: Option<Seq<char>>, id: Seq<char>) -> spec_fn(PrimitiveGroup<V>) -> bool {
    |g: PrimitiveGroup<V>| group_ident(g) != (scope, id)
}

pub open spec fn other_scope<V>(scope: Option<Seq<char>>) -> spec_fn(PrimitiveGroup<V>) -> bool {
    |g: PrimitiveGroup<V>| opt_str(g.scope) != scope
}

pub fn opt_string_eq(a: &Option<String>, b: &Option<String>) -> (r: bool)
    ensures
        r == (opt_str(*a) == opt_str(*b)),
{
    match (a, b) {
        (Some(x), Some(y)) => *x == *y,
        (None, None) => true,
        _ => false,
    }
}

pub fn opt_string(o: Option<&str>) -> (r: Option<String>)
    ensures
        opt_str(r) == match o { Some(s) => Some(s@), None => None::<Seq<char>> },
{
    match o {
        Some(s) => Some(String::from_str(s)),
        None => None,
    }
}

impl<V: Copy> PrimitiveQueue<V> {
    pub closed spec fn groups(&self) -> Seq<PrimitiveGroup<V>> {
        self.groups@
    }

    /// Group identities are unique.
    pub open spec fn wf(&self) -> bool {
        forall|i: int, j: int|
            0 <= i < self.groups().len() && 0 <= j < self.groups().len() && i != j
                ==> #[trigger] group_ident(self.groups()[i]) != #[trigger] group_ident(self.groups()[j])
    }

    pub fn new() -> (q: Self)
        ensures
            q.wf(),
            q.groups().len() == 0,
    {
        PrimitiveQueue { groups: Vec::new() }
    }

    /// Whether the queue holds a group.
    pub fn is_empty(&self) -> (b: bool)
        ensures
            b == (self.groups().len() == 0),
    {
        self.groups.len() == 0
    }

    /// Keeps the groups for which `keep_scope_only` (when set: groups not in
    /// `scope`) or otherwise the groups not identified by `(scope, id)`.
    fn retain_groups(&mut self, scope: &Option<String>, id: &str, keep_scope_only: bool)
        requires
            old(self).wf(),
        ensures
            final(self).wf(),
            final(self).groups() == old(self).groups().filter(
                if keep_scope_only { other_scope::<V>(opt_str(*scope)) } else { other_ident::<V>(opt_str(*scope), id@) },
            ),
    {
        let ghost s0 = self.groups@;
        let ghost pred = if keep_scope_only { other_scope::<V>(opt_str(*scope)) } else { other_ident::<V>(opt_str(*scope), id@) };
        let key = String::from_str(id);
        let mut rest: Vec<PrimitiveGroup<V>> = Vec::new();
        std::mem::swap(&mut rest, &mut self.groups);
        let mut kept: Vec<PrimitiveGroup<V>> = Vec::new();
        let ghost mut k: int = 0;
        assert(s0 == old(self).groups());
        while rest.len() > 0
            invariant
                key@ == id@,
                pred == (if keep_scope_only { other_scope::<V>(opt_str(*scope)) } else { other_ident::<V>(opt_str(*scope), id@) }),
                0 <= k <= s0.len(),
                rest@ == s0.subrange(k, s0.len() as int),
                kept@ == s0.subrange(0, k).filter(pred),
                forall|i: int, j: int|
                    0 <= i < s0.len() && 0 <= j < s0.len() && i != j
                        ==> #[trigger] group_ident(s0[i]) != #[trigger] group_ident(s0[j]),
            decreases rest@.len(),
        {
            let g = rest.remove(0);
            proof {
                reveal(Seq::filter);
                assert(s0.subrange(0, k + 1).drop_last() =~= s0.subrange(0, k));
                assert(s0.subrange(0, k + 1).last() == g);
            }
            let same_scope = opt_string_eq(&g.scope, scope);
            let drop = if keep_scope_only { same_scope } else { same_scope && g.group_id == key };
            if !drop {
                kept.push(g);
            }
            proof {
                k = k + 1;
                assert(rest@ =~= s0.subrange(k, s0.len() as int));
            }
        }
        proof {
            assert(s0.subrange(0, s0.len() as int) =~= s0);
            let f = s0.filter(pred);
            assert forall|i: int, j: int| 0 <= i < f.len() && 0 <= j < f.len() && i != j
                implies #[trigger] group_ident(f[i]) != #[trigger] group_ident(f[j]) by {
                lemma_filter_injective(s0, pred, i, j);
            }
        }
        self.groups = kept;
    }

    /// Replaces group `(scope, group_id)` by `vertices` drawn with
    /// `effect_id` and `options`; an empty `vertices` removes the group.
    pub fn set(&mut self, scope: Option<&str>, group_id: &str, effect_id: Option<&str>, vertices: &[V], options: PrimitiveOptions)
        requires
            old(self).wf(),
        ensures
            final(self).wf(),
            ({
                let sc = match scope { Some(x) => Some(x@), None => None::<Seq<char>> };
                let kept = old(self).groups().filter(other_ident::<V>(sc, group_id@));
                if vertices@.len() == 0 {
                    final(self).groups() == kept
                } else {
                    &&& final(self).groups().drop_last() == kept
                    &&& final(self).groups().len() == kept.len() + 1
                    &&& group_ident(final(self).groups().last()) == (sc, group_id@)
                    &&& opt_str(final(self).groups().last().effect_id) == match effect_id { Some(x) => Some(x@), None => None::<Seq<char>> }
                    &&& final(self).groups().last().vertices@ == vertices@
                    &&& final(self).groups().last().options == options
                }
            }),
    {
        let sc = opt_string(scope);
        self.retain_groups(&sc, group_id, false);
        if vertices.len() > 0 {
            let ghost kept = self.groups@;
            let g = PrimitiveGroup {
                scope: sc,
                group_id: String::from_str(group_id),
                effect_id: opt_string(effect_id),
                vertices: vstd::slice::slice_to_vec(vertices),
                options,
            };
            proof {
                assert forall|i: int| 0 <= i < kept.len() implies #[trigger] group_ident(kept[i]) != group_ident(g) by {
                    let sc_v = match scope { Some(x) => Some(x@), None => None::<Seq<char>> };
                    assert(other_ident::<V>(sc_v, group_id@)(old(self).groups().filter(other_ident::<V>(sc_v, group_id@))[i]));
                }
            }
            self.groups.push(g);
            proof {
                assert(self.groups@.drop_last() =~= kept);
                assert forall|i: int, j: int|
                    0 <= i < self.groups@.len() && 0 <= j < self.groups@.len() && i != j
                    implies #[trigger] group_ident(self.groups@[i]) != #[trigger] group_ident(self.groups@[j]) by {
                    if i < kept.len() && j < kept.len() {
                        assert(self.groups@[i] == kept[i] && self.groups@[j] == kept[j]);
                    } else if i < kept.len() {
                        assert(self.groups@[i] == kept[i]);
                    } else {
                        assert(self.groups@[j] == kept[j]);
                    }
                }
            }
        }
    }

    /// Removes group `(scope, group_id)`.
    pub fn remove(&mut self, scope: Option<&str>, group_id: &str)
        requires
            old(self).wf(),
        ensures
            final(self).wf(),
            final(self).groups() == old(self).groups().filter(
                other_ident::<V>(match scope { Some(x) => Some(x@), None => None::<Seq<char>> }, group_id@),
            ),
    {
        let sc = opt_string(scope);
        self.retain_groups(&sc, group_id, false);
    }

    /// Removes every group of `scope` (all text of one font).
    pub fn remove_scope(&mut self, scope: Option<&str>)
        requires
            old(self).wf(),
        ensures
            final(self).wf(),
            final(self).groups() == old(self).groups().filter(
                other_scope::<V>(match scope { Some(x) => Some(x@), None => None::<Seq<char>> }),
            ),
    {
        let sc = opt_string(scope);
        self.retain_groups(&sc, "", true);
    }

    /// Removes every group.
    pub fn clear(&mut self)
        ensures
            final(self).wf(),
            final(self).groups().len() == 0,
    {
        self.groups = Vec::new();
    }
}

/// Batch keys are unique.
pub open spec fn batch_keys_unique<V>(bs: Seq<Batch<V>>) -> bool {
    forall|i: int, j: int| 0 <= i < bs.len() && 0 <= j < bs.len() && i != j
        ==> #[trigger] batch_key(bs[i]) != #[trigger] batch_key(bs[j])
}

/// `bs` is what latching the groups `gs` gives: one batch per batch key of
/// the groups, each holding the vertices of that key's groups in order, cut
/// to the capacity.
pub open spec fn latched<V>(gs: Seq<PrimitiveGroup<V>>, bs: Seq<Batch<V>>) -> bool {
    &&& batch_keys_unique(bs)
    &&& forall|i: int| 0 <= i < bs.len() ==> (#[trigger] bs[i]).vertices@ == capped(concat_for(gs, batch_key(bs[i])))
    &&& forall|i: int| 0 <= i < bs.len() ==> exists|g: int| 0 <= g < gs.len() && #[trigger] group_key(gs[g]) == batch_key(#[trigger] bs[i])
    &&& forall|g: int| 0 <= g < gs.len() ==> exists|i: int| 0 <= i < bs.len() && #[trigger] batch_key(bs[i]) == group_key(#[trigger] gs[g])
}

/// The batch with key `(effect_id, options)`, if any.
fn find_batch<V>(bs: &Vec<Batch<V>>, effect_id: &Option<String>, options: &PrimitiveOptions) -> (r: Option<usize>)
    requires
        batch_keys_unique(bs@),
    ensures
        match r {
            Some(j) => j < bs@.len() && batch_key(bs@[j as int]) == (opt_str(*effect_id), *options),
            None => forall|j: int| 0 <= j < bs@.len() ==> #[trigger] batch_key(bs@[j]) != (opt_str(*effect_id), *options),
        },
{
    let mut j: usize = 0;
    while j < bs.len()
        invariant
            j <= bs@.len(),
            forall|k: int| 0 <= k < j ==> #[trigger] batch_key(bs@[k]) != (opt_str(*effect_id), *options),
        decreases bs@.len() - j,
    {
        if bs[j].options == *options && opt_string_eq(&bs[j].effect_id, effect_id) {
            return Some(j);
        }
        j = j + 1;
    }
    None
}

/// `dst` followed by the first `n` elements of `src`.
fn append_prefix<V: Copy>(dst: &mut Vec<V>, src: &Vec<V>, n: usize)
    requires
        n <= src@.len(),
    ensures
        final(dst)@ == old(dst)@ + src@.take(n as int),
{
    let mut t: usize = 0;
    while t < n
        invariant
            t <= n,
            n <= src@.len(),
            dst@ == old(dst)@ + src@.take(t as int),
        decreases n - t,
    {
        dst.push(src[t]);
        proof {
            assert(src@.take(t as int + 1) =~= src@.take(t as int).push(src@[t as int]));
            assert(dst@ =~= old(dst)@ + src@.take(t as int + 1));
        }
        t = t + 1;
    }
}

impl<V: Copy> PrimitiveQueue<V> {
    /// Copies the submitted groups into batches ready to draw: one batch per
    /// effect and options, holding its groups' vertices in submission
    /// order, cut to the capacity of a vertex buffer.
    #[verifier::spinoff_prover]
    pub fn latch(&self) -> (batches: Vec<Batch<V>>)
        requires
            self.wf(),
        ensures
            latched(self.groups(), batches@),
    {
        let ghost gs = self.groups();
        let mut batches: Vec<Batch<V>> = Vec::new();
        let mut k: usize = 0;
        while k < self.groups.len()
            invariant
                gs == self.groups(),
                self.groups@ == gs,
                k <= gs.len(),
                latched(gs.take(k as int), batches@),
            decreases gs.len() - k,
        {
            let ghost pre = gs.take(k as int);
            let ghost post = gs.take(k as int + 1);
            let ghost bs0 = batches@;
            let g = &self.groups[k];
            let ghost key = group_key(*g);
            proof {
                assert(post.drop_last() =~= pre);
                assert(post.last() == *g);
                assert forall|kk: (Option<Seq<char>>, PrimitiveOptions)| kk != key implies #[trigger] concat_for(post, kk) == concat_for(pre, kk) by {
                    assert(concat_for(post, kk) =~= concat_for(pre, kk));
                }
                assert(concat_for(post, key) =~= concat_for(pre, key) + g.vertices@);
            }
            match find_batch(&batches, &g.effect_id, &g.options) {
                Some(j) => {
                    let mut b = batches.remove(j);
                    proof {
                        assert(b == bs0[j as int]);
                        assert(b.vertices@ == capped(concat_for(pre, key)));
                        lemma_capped_append(concat_for(pre, key), g.vertices@);
                    }
                    let room: usize = MAX_VERTEX_BUFFER_CAPACITY - b.vertices.len();
                    let n: usize = if g.vertices.len() < room { g.vertices.len() } else { room };
                    append_prefix(&mut b.vertices, &g.vertices, n);
                    batches.insert(j, b);
                    proof {
                        assert(batches@ =~= bs0.update(j as int, batches@[j as int]));
                        assert(batches@[j as int].vertices@ == capped(concat_for(post, key)));
                        assert forall|i: int| 0 <= i < batches@.len() implies
                            (#[trigger] batches@[i]).vertices@ == capped(concat_for(post, batch_key(batches@[i]))) by {
                            if i != j as int {
                                assert(batches@[i] == bs0[i]);
                                assert(batch_key(bs0[i]) != batch_key(bs0[j as int]));
                            }
                        }
                        assert forall|i: int| 0 <= i < batches@.len() implies
                            exists|gg: int| 0 <= gg < post.len() && #[trigger] group_key(post[gg]) == batch_key(#[trigger] batches@[i]) by {
                            assert(batch_key(batches@[i]) == batch_key(bs0[i]));
                            let gg = choose|gg: int| 0 <= gg < pre.len() && #[trigger] group_key(pre[gg]) == batch_key(bs0[i]);
                            assert(post[gg] == pre[gg]);
                        }
                        assert forall|gg: int| 0 <= gg < post.len() implies
                            exists|i: int| 0 <= i < batches@.len() && #[trigger] batch_key(batches@[i]) == group_key(#[trigger] post[gg]) by {
                            if gg < pre.len() {
                                assert(post[gg] == pre[gg]);
                                let i = choose|i: int| 0 <= i < bs0.len() && #[trigger] batch_key(bs0[i]) == group_key(pre[gg]);
                                assert(batch_key(batches@[i]) == batch_key(bs0[i]));
                            } else {
                                assert(batch_key(batches@[j as int]) == group_key(post[gg]));
                            }
                        }
                        assert forall|a: int, c: int| 0 <= a < batches@.len() && 0 <= c < batches@.len() && a != c
                            implies #[trigger] batch_key(batches@[a]) != #[trigger] batch_key(batches@[c]) by {
                            assert(batch_key(batches@[a]) == batch_key(bs0[a]));
                            assert(batch_key(batches@[c]) == batch_key(bs0[c]));
                        }
                    }
                },
                None => {
                    let n: usize = if g.vertices.len() < MAX_VERTEX_BUFFER_CAPACITY {
                        g.vertices.len()
                    } else {
                        MAX_VERTEX_BUFFER_CAPACITY
                    };
                    let mut vertices: Vec<V> = Vec::new();
                    append_prefix(&mut vertices, &g.vertices, n);
                    let effect_id = match &g.effect_id {
                        Some(e) => Some(e.clone()),
                        None => None,
                    };
                    proof {
                        assert forall|gg: int| 0 <= gg < pre.len() implies #[trigger] group_key(pre[gg]) != key by {
                            let i = choose|i: int| 0 <= i < bs0.len() && #[trigger] batch_key(bs0[i]) == group_key(pre[gg]);
                        }
                        lemma_concat_absent(pre, key);
                        assert(concat_for(post, key) =~= g.vertices@);
                        assert(vertices@ =~= capped(concat_for(post, key)));
                    }
                    batches.push(Batch { effect_id, options: g.options, vertices });
                    proof {
                        let last = batches@.len() - 1;
                        assert(batch_key(batches@[last]) == key);
                        assert forall|i: int| 0 <= i < batches@.len() implies
                            (#[trigger] batches@[i]).vertices@ == capped(concat_for(post, batch_key(batches@[i]))) by {
                            if i < last {
                                assert(batches@[i] == bs0[i]);
                                assert(batch_key(bs0[i]) != key);
                            }
                        }
                        assert forall|i: int| 0 <= i < batches@.len() implies
                            exists|gg: int| 0 <= gg < post.len() && #[trigger] group_key(post[gg]) == batch_key(#[trigger] batches@[i]) by {
                            if i < last {
                                assert(batches@[i] == bs0[i]);
                                let gg = choose|gg: int| 0 <= gg < pre.len() && #[trigger] group_key(pre[gg]) == batch_key(bs0[i]);
                                assert(post[gg] == pre[gg]);
                            } else {
                                assert(group_key(post[k as int]) == batch_key(batches@[i]));
                            }
                        }
                        assert forall|gg: int| 0 <= gg < post.len() implies
                            exists|i: int| 0 <= i < batches@.len() && #[trigger] batch_key(batches@[i]) == group_key(#[trigger] post[gg]) by {
                            if gg < pre.len() {
                                assert(post[gg] == pre[gg]);
                                let i = choose|i: int| 0 <= i < bs0.len() && #[trigger] batch_key(bs0[i]) == group_key(pre[gg]);
                                assert(batches@[i] == bs0[i]);
                            } else {
                                assert(batch_key(batches@[last]) == group_key(post[gg]));
                            }
                        }
                        assert forall|a: int, c: int| 0 <= a < batches@.len() && 0 <= c < batches@.len() && a != c
                            implies #[trigger] batch_key(batches@[a]) != #[trigger] batch_key(batches@[c]) by {
                            if a < last && c < last {
                                assert(batches@[a] == bs0[a] && batches@[c] == bs0[c]);
                            } else if a < last {
                                assert(batches@[a] == bs0[a]);
                            } else {
                                assert(batches@[c] == bs0[c]);
                            }
                        }
                    }
                },
            }
            k = k + 1;
        }
        proof {
            assert(gs.take(gs.len() as int) =~= gs);
        }
        batches
    }
}

/// One draw call of a frame: the batch drawn and the pipeline state.
#[derive(PartialEq, Eq, Structural, Clone, Copy, Debug)]
pub struct DrawCall {
    pub batch: usize,
    pub priority: i32,
    pub raster: RasterState,
    pub blend: BlendState,
    pub depth: DepthState,
    pub stencil_ref: u8,
    pub vertex_count: usize,
}

/// The draw call of batch `i` with `effect_blend` the blend mode of its
/// custom effect (none for plain batches).
pub open spec fn call_spec<V>(b: Batch<V>, i: int, has_depth_view: bool, effect_blend: Option<BlendMode>) -> DrawCall {
    DrawCall {
        batch: i as usize,
        priority: b.options.render_priority,
        raster: raster_spec(b.options),
        blend: blend_spec(b.options, effect_blend),
        depth: depth_spec(b.options, has_depth_view),
        stencil_ref: b.options.stencil_ref,
        vertex_count: b.vertices@.len() as usize,
    }
}

/// Draw calls in ascending priority.
pub open spec fn sorted_by_priority(s: Seq<DrawCall>) -> bool {
    forall|i: int, j: int| 0 <= i < j < s.len() ==> #[trigger] s[i].priority <= #[trigger] s[j].priority
}

/// The draw calls of the plain batches among the first `n`, in batch order:
/// every non-empty batch.
pub open spec fn plain_calls<V>(bs: Seq<Batch<V>>, n: int, has_depth_view: bool) -> Seq<DrawCall>
    decreases n,
{
    if n <= 0 {
        Seq::empty()
    } else {
        let rest = plain_calls(bs, n - 1, has_depth_view);
        if bs[n - 1].vertices@.len() > 0 {
            rest.push(call_spec(bs[n - 1], n - 1, has_depth_view, None))
        } else {
            rest
        }
    }
}

/// The draw calls of the custom-effect batches among the first `n`, in
/// batch order: every non-empty batch whose effect is registered, blended as
/// its effect says.
pub open spec fn custom_calls<V, R, T, S>(bs: Seq<Batch<V>>, n: int, has_depth_view: bool, effects: Seq<CustomEffect<R, T, S>>) -> Seq<DrawCall>
    decreases n,
{
    if n <= 0 {
        Seq::empty()
    } else {
        let rest = custom_calls(bs, n - 1, has_depth_view, effects);
        let b = bs[n - 1];
        match opt_str(b.effect_id) {
            Some(id) => if b.vertices@.len() > 0 && has_effect(effects, id) {
                rest.push(call_spec(b, n - 1, has_depth_view, Some(effects[effect_index(effects, id)].blend_mode)))
            } else {
                rest
            },
            None => rest,
        }
    }
}

/// Sorts draw calls by ascending priority, keeping the order of equal ones.
/// The calls' batches are in ascending order.
pub open spec fn batches_ascending(s: Seq<DrawCall>) -> bool {
    forall|i: int, j: int| 0 <= i < j < s.len() ==> #[trigger] s[i].batch < #[trigger] s[j].batch
}

/// Calls of equal priority come in the order of their batches: the sort
/// keeps the order in which batches were submitted.
pub open spec fn equal_priority_in_batch_order(s: Seq<DrawCall>) -> bool {
    forall|i: int, j: int| 0 <= i < j < s.len() && s[i].priority == s[j].priority
        ==> #[trigger] s[i].batch < #[trigger] s[j].batch
}

pub fn sort_by_priority(calls: Vec<DrawCall>) -> (out: Vec<DrawCall>)
    ensures
        sorted_by_priority(out@),
        out@.to_multiset() == calls@.to_multiset(),
        batches_ascending(calls@) ==> equal_priority_in_batch_order(out@),
{
    let mut out: Vec<DrawCall> = Vec::new();
    let mut k: usize = 0;
    assert(calls@.take(0) =~= out@);
    while k < calls.len()
        invariant
            k <= calls@.len(),
            sorted_by_priority(out@),
            out@.to_multiset() == calls@.take(k as int).to_multiset(),
            forall|i: int| 0 <= i < out@.len() ==> exists|m: int| 0 <= m < k && #[trigger] out@[i] == calls@[m],
            batches_ascending(calls@) ==> equal_priority_in_batch_order(out@),
        decreases calls@.len() - k,
    {
        let c = calls[k];
        let mut p: usize = 0;
        while p < out.len() && out[p].priority <= c.priority
            invariant
                p <= out@.len(),
                forall|i: int| 0 <= i < p ==> #[trigger] out@[i].priority <= c.priority,
            decreases out@.len() - p,
        {
            p = p + 1;
        }
        let ghost before = out@;
        out.insert(p, c);
        proof {
            broadcast use vstd::seq_lib::group_to_multiset_ensures;
            assert(calls@.take(k as int + 1) =~= calls@.take(k as int).push(c));
            assert forall|i: int, j: int| 0 <= i < j < out@.len() implies #[trigger] out@[i].priority <= #[trigger] out@[j].priority by {
                if j < p {
                    assert(out@[i] == before[i] && out@[j] == before[j]);
                } else if j == p {
                    assert(out@[i] == before[i]);
                } else if i < p {
                    assert(out@[i] == before[i] && out@[j] == before[j - 1]);
                    assert(before[i].priority <= c.priority);
                    assert(before[j - 1].priority > c.priority || p == before.len()) by {
                        if before[p as int].priority <= c.priority {
                        }
                    }
                } else if i == p {
                    assert(out@[j] == before[j - 1]);
                } else {
                    assert(out@[i] == before[i - 1] && out@[j] == before[j - 1]);
                }
            }
            assert forall|i: int| 0 <= i < out@.len() implies exists|m: int| 0 <= m < k + 1 && #[trigger] out@[i] == calls@[m] by {
                if i < p {
                    assert(out@[i] == before[i]);
                } else if i == p {
                    assert(out@[i] == calls@[k as int]);
                } else {
                    assert(out@[i] == before[i - 1]);
                }
            }
            if batches_ascending(calls@) {
                assert forall|i: int, j: int| 0 <= i < j < out@.len() && out@[i].priority == out@[j].priority
                    implies #[trigger] out@[i].batch < #[trigger] out@[j].batch by {
                    if j < p {
                        assert(out@[i] == before[i] && out@[j] == before[j]);
                    } else if j == p {
                        assert(out@[i] == before[i]);
                        let m = choose|m: int| 0 <= m < k && #[trigger] before[i] == calls@[m];
                        assert(calls@[m].batch < calls@[k as int].batch);
                    } else if i < p {
                        assert(out@[i] == before[i] && out@[j] == before[j - 1]);
                    } else if i == p {
                        assert(out@[j] == before[j - 1]);
                        assert(before[j - 1].priority > c.priority) by {
                            if before[p as int].priority <= c.priority {
                            }
                            assert(before[p as int].priority <= before[j - 1].priority);
                        }
                    } else {
                        assert(out@[i] == before[i - 1] && out@[j] == before[j - 1]);
                    }
                }
            }
        }
        k = k + 1;
    }
    proof {
        assert(calls@.take(calls@.len() as int) =~= calls@);
    }
    out
}

/// The draw calls of a frame for plain batches: every non-empty batch, in
/// ascending priority, with the states its options select.
pub fn plan_plain_draw<V>(batches: &Vec<Batch<V>>, has_depth_view: bool) -> (calls: Vec<DrawCall>)
    ensures
        sorted_by_priority(calls@),
        calls@.to_multiset() == plain_calls(batches@, batches@.len() as int, has_depth_view).to_multiset(),
        equal_priority_in_batch_order(calls@),
{
    let mut unsorted: Vec<DrawCall> = Vec::new();
    let mut i: usize = 0;
    while i < batches.len()
        invariant
            i <= batches@.len(),
            unsorted@ == plain_calls(batches@, i as int, has_depth_view),
            batches_ascending(unsorted@),
            forall|t: int| 0 <= t < unsorted@.len() ==> #[trigger] unsorted@[t].batch < i,
        decreases batches@.len() - i,
    {
        let b = &batches[i];
        if b.vertices.len() > 0 {
            unsorted.push(DrawCall {
                batch: i,
                priority: b.options.render_priority,
                raster: rasterizer_state(&b.options),
                blend: blend_state(&b.options, None),
                depth: depth_stencil_state(&b.options, has_depth_view),
                stencil_ref: b.options.stencil_ref,
                vertex_count: b.vertices.len(),
            });
        }
        i = i + 1;
    }
    sort_by_priority(unsorted)
}

/// The draw calls of a frame for custom-effect batches: every non-empty
/// batch whose effect is registered, in ascending priority, blended as its
/// options or its effect say.
pub fn plan_custom_draw<V, R, T, S>(batches: &Vec<Batch<V>>, has_depth_view: bool, effects: &EffectRegistry<R, T, S>) -> (calls: Vec<DrawCall>)
    requires
        effects.wf(),
    ensures
        sorted_by_priority(calls@),
        calls@.to_multiset() == custom_calls(batches@, batches@.len() as int, has_depth_view, effects.effects()).to_multiset(),
        equal_priority_in_batch_order(calls@),
{
    let mut unsorted: Vec<DrawCall> = Vec::new();
    let mut i: usize = 0;
    while i < batches.len()
        invariant
            effects.wf(),
            i <= batches@.len(),
            unsorted@ == custom_calls(batches@, i as int, has_depth_view, effects.effects()),
            batches_ascending(unsorted@),
            forall|t: int| 0 <= t < unsorted@.len() ==> #[trigger] unsorted@[t].batch < i,
        decreases batches@.len() - i,
    {
        let b = &batches[i];
        match &b.effect_id {
            Some(id) => {
                if b.vertices.len() > 0 {
                    match effects.blend_of(id.as_str()) {
                        Some(mode) => {
                            unsorted.push(DrawCall {
                                batch: i,
                                priority: b.options.render_priority,
                                raster: rasterizer_state(&b.options),
                                blend: blend_state(&b.options, Some(mode)),
                                depth: depth_stencil_state(&b.options, has_depth_view),
                                stencil_ref: b.options.stencil_ref,
                                vertex_count: b.vertices.len(),
                            });
                        },
                        None => {},
                    }
                }
            },
            None => {},
        }
        i = i + 1;
    }
    sort_by_priority(unsorted)
}

/// The primitives of an overlay: four queues (plain and custom-effect
/// triangles and lines) and the batches latched for the current frame.
pub struct PrimitiveScene<V> {
    triangles: PrimitiveQueue<V>,
    lines: PrimitiveQueue<V>,
    custom_triangles: PrimitiveQueue<V>,
    custom_lines: PrimitiveQueue<V>,
    latched_triangles: Vec<Batch<V>>,
    latched_lines: Vec<Batch<V>>,
    latched_custom_triangles: Vec<Batch<V>>,
    latched_custom_lines: Vec<Batch<V>>,
}

/// The four queues of a scene, in the order triangles, lines, custom
/// triangles, custom lines.
pub struct SceneQueues<V> {
    pub triangles: Seq<PrimitiveGroup<V>>,
    pub lines: Seq<PrimitiveGroup<V>>,
    pub custom_triangles: Seq<PrimitiveGroup<V>>,
    pub custom_lines: Seq<PrimitiveGroup<V>>,
}

impl<V: Copy> PrimitiveScene<V> {
    pub closed spec fn queues(&self) -> SceneQueues<V> {
        SceneQueues {
            triangles: self.triangles.groups(),
            lines: self.lines.groups(),
            custom_triangles: self.custom_triangles.groups(),
            custom_lines: self.custom_lines.groups(),
        }
    }

    /// The batches latched for the frame, in the order of [`queues`].
    pub closed spec fn latched(&self) -> (Seq<Batch<V>>, Seq<Batch<V>>, Seq<Batch<V>>, Seq<Batch<V>>) {
        (self.latched_triangles@, self.latched_lines@, self.latched_custom_triangles@, self.latched_custom_lines@)
    }

    pub closed spec fn wf(&self) -> bool {
        &&& self.triangles.wf()
        &&& self.lines.wf()
        &&& self.custom_triangles.wf()
        &&& self.custom_lines.wf()
    }

    pub fn new() -> (s: Self)
        ensures
            s.wf(),
            s.queues().triangles.len() == 0 && s.queues().lines.len() == 0,
            s.queues().custom_triangles.len() == 0 && s.queues().custom_lines.len() == 0,
            s.latched().0.len() == 0 && s.latched().1.len() == 0,
            s.latched().2.len() == 0 && s.latched().3.len() == 0,
    {
        PrimitiveScene {
            triangles: PrimitiveQueue::new(),
            lines: PrimitiveQueue::new(),
            custom_triangles: PrimitiveQueue::new(),
            custom_lines: PrimitiveQueue::new(),
            latched_triangles: Vec::new(),
            latched_lines: Vec::new(),
            latched_custom_triangles: Vec::new(),
            latched_custom_lines: Vec::new(),
        }
    }

    /// Replaces group `group_id` of plain triangles and lines, drawn with
    /// `options`; an empty list removes the group from its queue.
    pub fn set_primitives_ex(&mut self, group_id: &str, triangles: &[V], lines: &[V], options: PrimitiveOptions)
        requires
            old(self).wf(),
        ensures
            final(self).wf(),
            set_applied(old(self).queues().triangles, group_id@, None, triangles@, options, final(self).queues().triangles),
            set_applied(old(self).queues().lines, group_id@, None, lines@, options, final(self).queues().lines),
            final(self).queues().custom_triangles == old(self).queues().custom_triangles,
            final(self).queues().custom_lines == old(self).queues().custom_lines,
            final(self).latched() == old(self).latched(),
    {
        self.triangles.set(None, group_id, None, triangles, options);
        self.lines.set(None, group_id, None, lines, options);
    }

    /// Replaces group `group_id` of plain triangles and lines, drawn with the
    /// default options.
    pub fn set_primitives(&mut self, group_id: &str, triangles: &[V], lines: &[V])
        requires
            old(self).wf(),
        ensures
            final(self).wf(),
            set_applied(old(self).queues().triangles, group_id@, None, triangles@, default_options(), final(self).queues().triangles),
            set_applied(old(self).queues().lines, group_id@, None, lines@, default_options(), final(self).queues().lines),
            final(self).queues().custom_triangles == old(self).queues().custom_triangles,
            final(self).queues().custom_lines == old(self).queues().custom_lines,
            final(self).latched() == old(self).latched(),
    {
        self.set_primitives_ex(group_id, triangles, lines, PrimitiveOptions::default());
    }

    /// Replaces group `group_id` of custom-effect triangles and lines, drawn
    /// with effect `effect_id` and `options`.
    pub fn set_custom_primitives_ex(&mut self, group_id: &str, triangles: &[V], lines: &[V], effect_id: &str, options: PrimitiveOptions)
        requires
            old(self).wf(),
        ensures
            final(self).wf(),
            set_applied(old(self).queues().custom_triangles, group_id@, Some(effect_id@), triangles@, options, final(self).queues().custom_triangles),
            set_applied(old(self).queues().custom_lines, group_id@, Some(effect_id@), lines@, options, final(self).queues().custom_lines),
            final(self).queues().triangles == old(self).queues().triangles,
            final(self).queues().lines == old(self).queues().lines,
            final(self).latched() == old(self).latched(),
    {
        self.custom_triangles.set(None, group_id, Some(effect_id), triangles, options);
        self.custom_lines.set(None, group_id, Some(effect_id), lines, options);
    }

    /// Replaces group `group_id` of custom-effect triangles and lines, drawn
    /// with effect `effect_id` and the default options.
    pub fn set_custom_primitives(&mut self, group_id: &str, triangles: &[V], lines: &[V], effect_id: &str)
        requires
            old(self).wf(),
        ensures
            final(self).wf(),
            set_applied(old(self).queues().custom_triangles, group_id@, Some(effect_id@), triangles@, default_options(), final(self).queues().custom_triangles),
            set_applied(old(self).queues().custom_lines, group_id@, Some(effect_id@), lines@, default_options(), final(self).queues().custom_lines),
            final(self).queues().triangles == old(self).queues().triangles,
            final(self).queues().lines == old(self).queues().lines,
            final(self).latched() == old(self).latched(),
    {
        self.set_custom_primitives_ex(group_id, triangles, lines, effect_id, PrimitiveOptions::default());
    }

    /// Removes group `group_id` from all four queues.
    pub fn clear_primitives(&mut self, group_id: &str)
        requires
            old(self).wf(),
        ensures
            final(self).wf(),
            final(self).queues().triangles == old(self).queues().triangles.filter(other_ident::<V>(None, group_id@)),
            final(self).queues().lines == old(self).queues().lines.filter(other_ident::<V>(None, group_id@)),
            final(self).queues().custom_triangles == old(self).queues().custom_triangles.filter(other_ident::<V>(None, group_id@)),
            final(self).queues().custom_lines == old(self).queues().custom_lines.filter(other_ident::<V>(None, group_id@)),
            final(self).latched() == old(self).latched(),
    {
        self.triangles.remove(None, group_id);
        self.lines.remove(None, group_id);
        self.custom_triangles.remove(None, group_id);
        self.custom_lines.remove(None, group_id);
    }

    /// Empties all four queues.
    pub fn clear_all_primitives(&mut self)
        requires
            old(self).wf(),
        ensures
            final(self).wf(),
            final(self).queues().triangles.len() == 0 && final(self).queues().lines.len() == 0,
            final(self).queues().custom_triangles.len() == 0 && final(self).queues().custom_lines.len() == 0,
            final(self).latched() == old(self).latched(),
    {
        self.triangles.clear();
        self.lines.clear();
        self.custom_triangles.clear();
        self.custom_lines.clear();
    }

    /// Latches the four queues for the frame.
    pub fn latch_buffers(&mut self)
        requires
            old(self).wf(),
        ensures
            final(self).wf(),
            final(self).queues() == old(self).queues(),
            latched(old(self).queues().triangles, final(self).latched().0),
            latched(old(self).queues().lines, final(self).latched().1),
            latched(old(self).queues().custom_triangles, final(self).latched().2),
            latched(old(self).queues().custom_lines, final(self).latched().3),
    {
        self.latched_triangles = self.triangles.latch();
        self.latched_lines = self.lines.latch();
        self.latched_custom_triangles = self.custom_triangles.latch();
        self.latched_custom_lines = self.custom_lines.latch();
    }

    /// Whether a frame has anything latched to draw.
    pub fn has_latched(&self) -> (b: bool)
        ensures
            b == (self.latched().0.len() > 0 || self.latched().1.len() > 0 || self.latched().2.len() > 0
                || self.latched().3.len() > 0),
    {
        self.latched_triangles.len() > 0 || self.latched_lines.len() > 0 || self.latched_custom_triangles.len() > 0
            || self.latched_custom_lines.len() > 0
    }

    /// The latched batches, in the order of [`queues`].
    pub fn latched_batches(&self) -> (r: (&Vec<Batch<V>>, &Vec<Batch<V>>, &Vec<Batch<V>>, &Vec<Batch<V>>))
        ensures
            (r.0@, r.1@, r.2@, r.3@) == self.latched(),
    {
        (&self.latched_triangles, &self.latched_lines, &self.latched_custom_triangles, &self.latched_custom_lines)
    }

    /// The frame's draw calls for each latched table, in the order of
    /// [`queues`].
    pub fn plan_frame<R, T, S>(&self, has_depth_view: bool, effects: &EffectRegistry<R, T, S>) -> (r: (Vec<DrawCall>, Vec<DrawCall>, Vec<DrawCall>, Vec<DrawCall>))
        requires
            effects.wf(),
        ensures
            sorted_by_priority(r.0@) && sorted_by_priority(r.1@),
            sorted_by_priority(r.2@) && sorted_by_priority(r.3@),
            equal_priority_in_batch_order(r.0@) && equal_priority_in_batch_order(r.1@),
            equal_priority_in_batch_order(r.2@) && equal_priority_in_batch_order(r.3@),
            r.0@.to_multiset() == plain_calls(self.latched().0, self.latched().0.len() as int, has_depth_view).to_multiset(),
            r.1@.to_multiset() == plain_calls(self.latched().1, self.latched().1.len() as int, has_depth_view).to_multiset(),
            r.2@.to_multiset() == custom_calls(self.latched().2, self.latched().2.len() as int, has_depth_view, effects.effects()).to_multiset(),
            r.3@.to_multiset() == custom_calls(self.latched().3, self.latched().3.len() as int, has_depth_view, effects.effects()).to_multiset(),
    {
        (
            plan_plain_draw(&self.latched_triangles, has_depth_view),
            plan_plain_draw(&self.latched_lines, has_depth_view),
            plan_custom_draw(&self.latched_custom_triangles, has_depth_view, effects),
            plan_custom_draw(&self.latched_custom_lines, has_depth_view, effects),
        )
    }
}

/// `after` is `before` with group `id` replaced by `vertices` (effect
/// `effect`, options `options`), or removed when `vertices` is empty.
pub open spec fn set_applied<V>(
    before: Seq<PrimitiveGroup<V>>,
    id: Seq<char>,
    effect: Option<Seq<char>>,
    vertices: Seq<V>,
    options: PrimitiveOptions,
    after: Seq<PrimitiveGroup<V>>,
) -> bool {
    let kept = before.filter(other_ident::<V>(None, id));
    if vertices.len() == 0 {
        after == kept
    } else {
        &&& after.len() == kept.len() + 1
        &&& after.drop_last() == kept
        &&& group_ident(after.last()) == (None::<Seq<char>>, id)
        &&& opt_str(after.last().effect_id) == effect
        &&& after.last().vertices@ == vertices
        &&& after.last().options == options
    }
}

/// The draw calls of the text batches of font `font`, in batch order: every
/// non-empty one, never writing depth.
pub open spec fn font_calls<V>(bs: Seq<Batch<V>>, n: int, font: Seq<char>, has_depth_view: bool) -> Seq<DrawCall>
    decreases n,
{
    if n <= 0 {
        Seq::empty()
    } else {
        let rest = font_calls(bs, n - 1, font, has_depth_view);
        let b = bs[n - 1];
        if opt_str(b.effect_id) == Some(font) && b.vertices@.len() > 0 {
            rest.push(DrawCall {
                depth: if b.options.ignore_depth_stencil || !has_depth_view { DepthState::Disabled } else { DepthState::ReadOnly },
                raster: RasterState::CullNone,
                ..call_spec(b, n - 1, has_depth_view, None)
            })
        } else {
            rest
        }
    }
}

/// Every text group is drawn with the atlas of the font it is filed under.
pub open spec fn scoped_by_font<V>(gs: Seq<PrimitiveGroup<V>>) -> bool {
    forall|g: int| 0 <= g < gs.len() ==> opt_str((#[trigger] gs[g]).effect_id) == opt_str(gs[g].scope)
}

/// Filtering keeps the groups filed under their font.
proof fn lemma_filter_scoped<V>(s: Seq<PrimitiveGroup<V>>, pred: spec_fn(PrimitiveGroup<V>) -> bool)
    requires
        scoped_by_font(s),
    ensures
        scoped_by_font(s.filter(pred)),
{
    lemma_filter_from_source(s, pred);
    assert forall|g: int| 0 <= g < s.filter(pred).len() implies
        opt_str((#[trigger] s.filter(pred)[g]).effect_id) == opt_str(s.filter(pred)[g].scope) by {
        assert(s.contains(s.filter(pred)[g]));
    }
}

/// The 3D text of an overlay: text groups by font, the fonts that have a
/// submission entry, and the batches latched for the frame.
pub struct TextScene<V> {
    groups: PrimitiveQueue<V>,
    entries: Vec<String>,
    latched: Vec<Batch<V>>,
}

pub open spec fn has_entry(es: Seq<String>, font: Seq<char>) -> bool {
    exists|i: int| 0 <= i < es.len() && #[trigger] es[i]@ == font
}

pub open spec fn other_entry(font: Seq<char>) -> spec_fn(String) -> bool {
    |e: String| e@ != font
}

impl<V: Copy> TextScene<V> {
    pub closed spec fn groups(&self) -> Seq<PrimitiveGroup<V>> {
        self.groups.groups()
    }

    pub closed spec fn entries(&self) -> Seq<String> {
        self.entries@
    }

    pub closed spec fn latched(&self) -> Seq<Batch<V>> {
        self.latched@
    }

    pub closed spec fn wf(&self) -> bool {
        &&& self.groups.wf()
        &&& scoped_by_font(self.groups.groups())
        &&& forall|i: int| 0 <= i < self.latched@.len() ==> (#[trigger] self.latched@[i]).vertices@.len() <= MAX_VERTEX_BUFFER_CAPACITY
    }

    pub fn new() -> (t: Self)
        ensures
            t.wf(),
            t.groups().len() == 0 && t.entries().len() == 0 && t.latched().len() == 0,
    {
        TextScene { groups: PrimitiveQueue::new(), entries: Vec::new(), latched: Vec::new() }
    }

    fn has_font_entry(&self, font: &str) -> (b: bool)
        ensures
            b == has_entry(self.entries(), font@),
    {
        let key = String::from_str(font);
        let mut i: usize = 0;
        while i < self.entries.len()
            invariant
                key@ == font@,
                i <= self.entries@.len(),
                forall|j: int| 0 <= j < i ==> #[trigger] self.entries@[j]@ != font@,
            decreases self.entries@.len() - i,
        {
            if self.entries[i] == key {
                return true;
            }
            i = i + 1;
        }
        false
    }

    fn remove_entry(&mut self, font: &str)
        ensures
            final(self).entries() == old(self).entries().filter(other_entry(font@)),
            final(self).groups == old(self).groups,
            final(self).latched == old(self).latched,
    {
        let ghost s0 = self.entries@;
        let key = String::from_str(font);
        let mut rest: Vec<String> = Vec::new();
        std::mem::swap(&mut rest, &mut self.entries);
        let mut kept: Vec<String> = Vec::new();
        let ghost mut k: int = 0;
        while rest.len() > 0
            invariant
                key@ == font@,
                0 <= k <= s0.len(),
                rest@ == s0.subrange(k, s0.len() as int),
                kept@ == s0.subrange(0, k).filter(other_entry(font@)),
            decreases rest@.len(),
        {
            let e = rest.remove(0);
            proof {
                reveal(Seq::filter);
                assert(s0.subrange(0, k + 1).drop_last() =~= s0.subrange(0, k));
                assert(s0.subrange(0, k + 1).last() == e);
            }
            if !(e == key) {
                kept.push(e);
            }
            proof {
                k = k + 1;
                assert(rest@ =~= s0.subrange(k, s0.len() as int));
            }
        }
        proof {
            assert(s0.subrange(0, s0.len() as int) =~= s0);
        }
        self.entries = kept;
    }

    /// Replaces text group `group_id` of font `font_id`; empty vertices only
    /// remove the group (and only when the font has an entry).
    pub fn set_text(&mut self, font_id: &str, group_id: &str, vertices: &[V], options: PrimitiveOptions)
        requires
            old(self).wf(),
        ensures
            final(self).wf(),
            vertices@.len() == 0 && !has_entry(old(self).entries(), font_id@) ==> final(self).groups() == old(self).groups(),
            vertices@.len() == 0 && has_entry(old(self).entries(), font_id@) ==> final(self).groups()
                == old(self).groups().filter(other_ident::<V>(Some(font_id@), group_id@)),
            vertices@.len() > 0 ==> {
                let kept = old(self).groups().filter(other_ident::<V>(Some(font_id@), group_id@));
                &&& final(self).groups().drop_last() == kept
                &&& final(self).groups().len() == kept.len() + 1
                &&& group_ident(final(self).groups().last()) == (Some(font_id@), group_id@)
                &&& opt_str(final(self).groups().last().effect_id) == Some(font_id@)
                &&& final(self).groups().last().vertices@ == vertices@
                &&& final(self).groups().last().options == options
            },
            vertices@.len() > 0 ==> has_entry(final(self).entries(), font_id@),
            forall|f: Seq<char>| f != font_id@ ==> (has_entry(final(self).entries(), f) <==> has_entry(old(self).entries(), f)),
            vertices@.len() == 0 ==> final(self).entries() == old(self).entries(),
            final(self).latched() == old(self).latched(),
    {
        let ghost g0 = self.groups.groups();
        proof { lemma_filter_scoped(g0, other_ident::<V>(Some(font_id@), group_id@)); }
        if vertices.len() == 0 {
            if self.has_font_entry(font_id) {
                self.groups.remove(Some(font_id), group_id);
            }
            return;
        }
        if !self.has_font_entry(font_id) {
            let ghost before = self.entries@;
            self.entries.push(String::from_str(font_id));
            proof {
                assert(self.entries@[before.len() as int]@ == font_id@);
                assert forall|f: Seq<char>| f != font_id@ implies (has_entry(self.entries@, f) <==> has_entry(before, f)) by {
                    if has_entry(self.entries@, f) {
                        let i = choose|i: int| 0 <= i < self.entries@.len() && #[trigger] self.entries@[i]@ == f;
                        assert(i < before.len());
                        assert(before[i]@ == f);
                    }
                    if has_entry(before, f) {
                        let i = choose|i: int| 0 <= i < before.len() && #[trigger] before[i]@ == f;
                        assert(self.entries@[i]@ == f);
                    }
                }
            }
        }
        self.groups.set(Some(font_id), group_id, Some(font_id), vertices, options);
        proof {
            let gs = self.groups.groups();
            let kept = g0.filter(other_ident::<V>(Some(font_id@), group_id@));
            assert forall|g: int| 0 <= g < gs.len() implies opt_str((#[trigger] gs[g]).effect_id) == opt_str(gs[g].scope) by {
                if g < gs.len() - 1 {
                    assert(gs[g] == gs.drop_last()[g]);
                    assert(gs.drop_last()[g] == kept[g]);
                } else {
                    assert(group_ident(gs.last()).0 == Some(font_id@));
                }
            }
        }
    }

    /// Removes text group `group_id` of font `font_id`.
    pub fn clear_text(&mut self, font_id: &str, group_id: &str)
        requires
            old(self).wf(),
        ensures
            final(self).wf(),
            final(self).groups() == old(self).groups().filter(other_ident::<V>(Some(font_id@), group_id@)),
            final(self).entries() == old(self).entries(),
            final(self).latched() == old(self).latched(),
    {
        proof { lemma_filter_scoped(self.groups.groups(), other_ident::<V>(Some(font_id@), group_id@)); }
        self.groups.remove(Some(font_id), group_id);
    }

    /// Removes all text of font `font_id` and its entry.
    pub fn clear_font_text(&mut self, font_id: &str)
        requires
            old(self).wf(),
        ensures
            final(self).wf(),
            final(self).groups() == old(self).groups().filter(other_scope::<V>(Some(font_id@))),
            final(self).entries() == old(self).entries().filter(other_entry(font_id@)),
            final(self).latched() == old(self).latched(),
    {
        proof { lemma_filter_scoped(self.groups.groups(), other_scope::<V>(Some(font_id@))); }
        self.groups.remove_scope(Some(font_id));
        self.remove_entry(font_id);
    }

    /// Forgets the atlas of font `font_id` and the text submitted in it; the
    /// text latched for the current frame stays.
    pub fn unregister_font_atlas<F>(&mut self, atlases: &mut FontAtlases<F>, font_id: &str)
        requires
            old(self).wf(),
        ensures
            final(self).wf(),
            final(atlases).view() == old(atlases).view().remove(font_id@),
            final(self).groups() == old(self).groups().filter(other_scope::<V>(Some(font_id@))),
            final(self).entries() == old(self).entries().filter(other_entry(font_id@)),
            final(self).latched() == old(self).latched(),
    {
        atlases.unregister(font_id);
        self.clear_font_text(font_id);
    }

    /// Removes all text.
    pub fn clear_all_text(&mut self)
        requires
            old(self).wf(),
        ensures
            final(self).wf(),
            final(self).groups().len() == 0,
            final(self).entries().len() == 0,
            final(self).latched() == old(self).latched(),
    {
        self.groups.clear();
        self.entries = Vec::new();
    }

    /// Whether there is text to draw or submitted: a font has an entry or
    /// batches are latched.
    pub fn has_renderable_content(&self) -> (b: bool)
        ensures
            b == (self.entries().len() > 0 || self.latched().len() > 0),
    {
        self.entries.len() > 0 || self.latched.len() > 0
    }

    /// Latches the text for the frame: one batch per font and options.
    pub fn latch_buffers(&mut self)
        requires
            old(self).wf(),
        ensures
            final(self).wf(),
            final(self).groups() == old(self).groups(),
            final(self).entries() == old(self).entries(),
            latched(old(self).groups(), final(self).latched()),
    {
        self.latched = self.groups.latch();
        assert forall|i: int| 0 <= i < self.latched@.len() implies (#[trigger] self.latched@[i]).vertices@.len() <= MAX_VERTEX_BUFFER_CAPACITY by {
            let s = concat_for(self.groups.groups(), batch_key(self.latched@[i]));
            assert(self.latched@[i].vertices@ == capped(s));
        }
    }

    /// The frame's draw calls for font `font`, in ascending priority; none
    /// when the font has no registered atlas. No call draws more vertices
    /// than a vertex buffer holds.
    pub fn plan_font<F>(&self, atlases: &FontAtlases<F>, font: &str, has_depth_view: bool) -> (calls: Vec<DrawCall>)
        requires
            self.wf(),
        ensures
            forall|t: int| 0 <= t < calls@.len() ==> (#[trigger] calls@[t]).vertex_count <= MAX_VERTEX_BUFFER_CAPACITY,
            !atlases.view().contains_key(font@) ==> calls@.len() == 0,
            atlases.view().contains_key(font@) ==> {
                &&& sorted_by_priority(calls@)
                &&& calls@.to_multiset() == font_calls(self.latched(), self.latched().len() as int, font@, has_depth_view).to_multiset()
                &&& equal_priority_in_batch_order(calls@)
            },
    {
        if atlases.get(font).is_none() {
            return Vec::new();
        }
        let key = Some(String::from_str(font));
        let mut unsorted: Vec<DrawCall> = Vec::new();
        let mut i: usize = 0;
        while i < self.latched.len()
            invariant
                opt_str(key) == Some(font@),
                i <= self.latched@.len(),
                unsorted@ == font_calls(self.latched@, i as int, font@, has_depth_view),
                batches_ascending(unsorted@),
                forall|t: int| 0 <= t < unsorted@.len() ==> #[trigger] unsorted@[t].batch < i,
                forall|t: int| 0 <= t < unsorted@.len() ==> (#[trigger] unsorted@[t]).vertex_count <= MAX_VERTEX_BUFFER_CAPACITY,
                forall|j: int| 0 <= j < self.latched@.len() ==> (#[trigger] self.latched@[j]).vertices@.len() <= MAX_VERTEX_BUFFER_CAPACITY,
            decreases self.latched@.len() - i,
        {
            let b = &self.latched[i];
            if opt_string_eq(&b.effect_id, &key) && b.vertices.len() > 0 {
                unsorted.push(DrawCall {
                    batch: i,
                    priority: b.options.render_priority,
                    raster: RasterState::CullNone,
                    blend: blend_state(&b.options, None),
                    depth: text_depth_state(&b.options, has_depth_view),
                    stencil_ref: b.options.stencil_ref,
                    vertex_count: b.vertices.len(),
                });
            }
            i = i + 1;
        }
        let calls = sort_by_priority(unsorted);
        proof {
            broadcast use vstd::seq_lib::group_to_multiset_ensures;
            assert forall|t: int| 0 <= t < calls@.len() implies (#[trigger] calls@[t]).vertex_count <= MAX_VERTEX_BUFFER_CAPACITY by {
                assert(calls@.contains(calls@[t]));
                assert(calls@.to_multiset().count(calls@[t]) > 0);
                assert(unsorted@.contains(calls@[t]));
            }
        }
        calls
    }
}

/// Once a font's atlas is unregistered (which drops the font's text), the
/// next latch of the text yields no batch for that font, so nothing is drawn
/// with it; the text of other fonts is kept.
pub proof fn law_unregistered_font_latches_nothing<V: Copy>(
    before: TextScene<V>,
    after: TextScene<V>,
    font: Seq<char>,
    has_depth_view: bool,
)
    requires
        before.wf(),
        after.groups() == before.groups().filter(other_scope::<V>(Some(font))),
        latched(after.groups(), after.latched()),
    ensures
        forall|i: int| 0 <= i < after.latched().len() ==> opt_str((#[trigger] after.latched()[i]).effect_id) != Some(font),
        font_calls(after.latched(), after.latched().len() as int, font, has_depth_view).len() == 0,
        forall|g: int| 0 <= g < before.groups().len() && opt_str(before.groups()[g].scope) != Some(font)
            ==> after.groups().contains(#[trigger] before.groups()[g]),
{
    let gs = before.groups();
    let pred = other_scope::<V>(Some(font));
    let kept = gs.filter(pred);
    let bs = after.latched();
    lemma_filter_from_source(gs, pred);
    assert forall|i: int| 0 <= i < bs.len() implies opt_str((#[trigger] bs[i]).effect_id) != Some(font) by {
        let g = choose|g: int| 0 <= g < kept.len() && #[trigger] group_key(kept[g]) == batch_key(bs[i]);
        gs.lemma_filter_pred(pred, g);
        assert(gs.contains(kept[g]));
        let k = choose|k: int| 0 <= k < gs.len() && gs[k] == kept[g];
        assert(opt_str(gs[k].effect_id) == opt_str(gs[k].scope));
    }
    lemma_no_font_calls(bs, bs.len() as int, font, has_depth_view);
    assert forall|g: int| 0 <= g < gs.len() && opt_str(gs[g].scope) != Some(font)
        implies after.groups().contains(#[trigger] gs[g]) by {
        gs.lemma_filter_contains(pred, g);
    }
}

proof fn lemma_no_font_calls<V>(bs: Seq<Batch<V>>, n: int, font: Seq<char>, has_depth_view: bool)
    requires
        n <= bs.len(),
        forall|i: int| 0 <= i < bs.len() ==> opt_str((#[trigger] bs[i]).effect_id) != Some(font),
    ensures
        font_calls(bs, n, font, has_depth_view).len() == 0,
    decreases n,
{
    if n > 0 {
        assert(opt_str(bs[n - 1].effect_id) != Some(font));
        lemma_no_font_calls(bs, n - 1, font, has_depth_view);
    }
}

/// Every element kept by a filter is an element of the source.
proof fn lemma_filter_from_source<V>(s: Seq<PrimitiveGroup<V>>, pred: spec_fn(PrimitiveGroup<V>) -> bool)
    ensures
        forall|i: int| 0 <= i < s.filter(pred).len() ==> s.contains(#[trigger] s.filter(pred)[i]),
    decreases s.len(),
{
    reveal(Seq::filter);
    if s.len() > 0 {
        lemma_filter_from_source(s.drop_last(), pred);
        let sub = s.drop_last().filter(pred);
        assert forall|i: int| 0 <= i < s.filter(pred).len() implies s.contains(#[trigger] s.filter(pred)[i]) by {
            if i < sub.len() {
                assert(s.filter(pred)[i] == sub[i]);
                assert(s.drop_last().contains(sub[i]));
                let m = choose|m: int| 0 <= m < s.drop_last().len() && s.drop_last()[m] == sub[i];
                assert(s[m] == sub[i]);
            } else {
                assert(s.filter(pred)[i] == s[s.len() - 1]);
            }
        }
    }
}

/// Filtering keeps group identities distinct.
proof fn lemma_filter_injective<V>(s: Seq<PrimitiveGroup<V>>, pred: spec_fn(PrimitiveGroup<V>) -> bool, i: int, j: int)
    requires
        forall|a: int, b: int| 0 <= a < s.len() && 0 <= b < s.len() && a != b
            ==> #[trigger] group_ident(s[a]) != #[trigger] group_ident(s[b]),
        0 <= i < s.filter(pred).len(),
        0 <= j < s.filter(pred).len(),
        i != j,
    ensures
        group_ident(s.filter(pred)[i]) != group_ident(s.filter(pred)[j]),
    decreases s.len(),
{
    reveal(Seq::filter);
    let f = s.filter(pred);
    let d = s.drop_last();
    let sub = d.filter(pred);
    assert forall|a: int, b: int| 0 <= a < d.len() && 0 <= b < d.len() && a != b
        implies #[trigger] group_ident(d[a]) != #[trigger] group_ident(d[b]) by {
        assert(d[a] == s[a] && d[b] == s[b]);
    }
    if pred(s.last()) {
        assert(f == sub.push(s.last()));
        if i < sub.len() && j < sub.len() {
            lemma_filter_injective(d, pred, i, j);
        } else {
            let k = if i < sub.len() { i } else { j };
            lemma_filter_from_source(d, pred);
            assert(d.contains(sub[k]));
            let m = choose|m: int| 0 <= m < d.len() && d[m] == sub[k];
            assert(s[m] == sub[k]);
            assert(group_ident(s[m]) != group_ident(s[s.len() - 1]));
        }
    } else {
        assert(f == sub);
        lemma_filter_injective(d, pred, i, j);
    }
}

/// The raster state culls back faces exactly when the options ask for
/// back-face culling, and draws wireframe exactly when they ask for
/// wireframe.
pub proof fn law_raster_state_follows_options(o: PrimitiveOptions)
    ensures
        o.cull_back && !o.wireframe ==> raster_spec(o) == RasterState::CullBack,
        !o.cull_back && o.wireframe ==> raster_spec(o) == RasterState::Wireframe,
        o.cull_back && o.wireframe ==> raster_spec(o) == RasterState::CullBackWireframe,
        !o.cull_back && !o.wireframe ==> raster_spec(o) == RasterState::CullNone,
        (raster_spec(o) == RasterState::CullBack || raster_spec(o) == RasterState::CullBackWireframe) == o.cull_back,
        (raster_spec(o) == RasterState::Wireframe || raster_spec(o) == RasterState::CullBackWireframe) == o.wireframe,
{
}

/// Depth is tested only when there is a depth buffer and the batch does not
/// ignore depth, and then written exactly when the batch asks to write it.
pub proof fn law_depth_state_follows_options(o: PrimitiveOptions, has_depth_view: bool)
    ensures
        (depth_spec(o, has_depth_view) == DepthState::Disabled) == (o.ignore_depth_stencil || !has_depth_view),
        (depth_spec(o, has_depth_view) == DepthState::Write) == (!o.ignore_depth_stencil && has_depth_view && o.write_to_depth),
        (depth_spec(o, has_depth_view) == DepthState::ReadOnly) == (!o.ignore_depth_stencil && has_depth_view && !o.write_to_depth),
{
}

/// A batch is drawn opaque exactly when it asks for it or its custom effect
/// blends opaque; otherwise it is alpha blended.
pub proof fn law_blend_state_follows_options(o: PrimitiveOptions, effect_blend: Option<BlendMode>)
    ensures
        (blend_spec(o, effect_blend) == BlendState::Opaque) == (o.opaque || effect_blend == Some(BlendMode::Opaque)),
        (blend_spec(o, effect_blend) == BlendState::Transparent) == (!o.opaque && effect_blend != Some(BlendMode::Opaque)),
{
}

} // verus!
