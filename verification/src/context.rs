//! What is bound on the device right now: one program, one mesh buffer and a
//! bounded table of textures, each remembered by identity and without being
//! kept alive.
//!
//! Every request names the resource that is wanted and the set `live` of the
//! resources that have an owner at that moment. A request that finds the
//! resource bound changes nothing on the device. One that does not runs the
//! caller's binding callback, or, through the functions that decide and
//! record separately, leaves the bind to the caller.

use crate::render_state::MaterialState;
use crate::resource::{Handle, Material, MeshBuffer, ShaderProgram, Texture, WeakHandle};
use crate::state_cache::StateCache;
use crate::texture_units::{
    after_hit, dead, find_spec, first_dead, first_from, free_unit, holds, lemma_find_is_first,
    lemma_hit, lemma_reserve, lemma_settle, reserved, settled, table_after, table_wf, unit_for,
    victim, without_victim, Entry,
};
use std::collections::HashSet;
use std::collections::VecDeque;
use vstd::prelude::*;

verus! {

/// The number of texture units of a context made by [`EngineContext::new`].
pub const MAX_TEXTURE_UNITS: u32 = 8;

/// The binding cache of one rendering context.
pub struct EngineContext {
    /// The mesh buffer that is bound.
    pub mesh_buffer: WeakHandle<MeshBuffer>,
    /// The program that is in use.
    pub prog: WeakHandle<ShaderProgram>,
    /// The texture units in use, least recently used first.
    pub textures: VecDeque<(u32, WeakHandle<Texture>)>,
    /// How many texture units the device offers.
    pub max_texture_units: u32,
    /// Counters that the caller keeps of the binds it made.
    pub switch_mesh: u32,
    pub switch_prog: u32,
    pub switch_tex: u32,
    /// The render state of the device.
    pub states: StateCache,
    /// The program whose light uniforms were set last.
    pub last_light_bound: Option<WeakHandle<ShaderProgram>>,
    /// The material whose uniforms were set last.
    pub last_material_bound: Option<WeakHandle<Material>>,
}

/// A resource kind of which the context remembers the one that is bound.
pub trait EngineCacher: Sized {
    /// The reference that the context holds for this kind.
    spec fn cache_of(ctx: EngineContext) -> WeakHandle<Self>;

    /// The context with the reference for this kind replaced.
    spec fn with_cache(ctx: EngineContext, weak: WeakHandle<Self>) -> EngineContext;

    /// Replacing the reference changes what `cache_of` reads and nothing of
    /// the texture table.
    proof fn lemma_cache(ctx: EngineContext, weak: WeakHandle<Self>)
        ensures
            Self::cache_of(Self::with_cache(ctx, weak)) == weak,
            Self::with_cache(ctx, Self::cache_of(ctx)) == ctx,
            Self::with_cache(ctx, weak).textures == ctx.textures,
            Self::with_cache(ctx, weak).max_texture_units == ctx.max_texture_units,
    ;

    /// The place in the context where the reference for this kind is kept.
    fn get_cache(ctx: &mut EngineContext) -> (slot: &mut WeakHandle<Self>)
        ensures
            *slot == Self::cache_of(*old(ctx)),
            *final(ctx) == Self::with_cache(*old(ctx), *final(slot)),
    ;
}

impl EngineCacher for ShaderProgram {
    open spec fn cache_of(ctx: EngineContext) -> WeakHandle<Self> {
        ctx.prog
    }

    open spec fn with_cache(ctx: EngineContext, weak: WeakHandle<Self>) -> EngineContext {
        EngineContext { prog: weak, ..ctx }
    }

    proof fn lemma_cache(ctx: EngineContext, weak: WeakHandle<Self>) {
    }

    fn get_cache(ctx: &mut EngineContext) -> (slot: &mut WeakHandle<Self>) {
        &mut ctx.prog
    }
}

impl EngineCacher for MeshBuffer {
    open spec fn cache_of(ctx: EngineContext) -> WeakHandle<Self> {
        ctx.mesh_buffer
    }

    open spec fn with_cache(ctx: EngineContext, weak: WeakHandle<Self>) -> EngineContext {
        EngineContext { mesh_buffer: weak, ..ctx }
    }

    proof fn lemma_cache(ctx: EngineContext, weak: WeakHandle<Self>) {
    }

    fn get_cache(ctx: &mut EngineContext) -> (slot: &mut WeakHandle<Self>) {
        &mut ctx.mesh_buffer
    }
}

/// Idempotent rebind. Take any context and a resource that is alive, and
/// let a request for it have succeeded: the context refers to the resource
/// if it had to be bound, and is unchanged if it did not. Then a second
/// request for the same resource needs no bind, so that of the two requests
/// at most the first calls the binding callback.
pub proof fn lemma_rebind_is_noop<T: EngineCacher>(
    ctx: EngineContext,
    new_p: Handle<T>,
    live_first: Set<u64>,
    live_second: Set<u64>,
)
    requires
        live_second.contains(new_p.id),
    ensures
        ({
            let after = if ctx.needs_bind(new_p, live_first) {
                T::with_cache(ctx, new_p.weak())
            } else {
                ctx
            };
            !after.needs_bind(new_p, live_second)
        }),
{
    T::lemma_cache(ctx, new_p.weak());
}

/// Identity, not likeness, decides. While the context refers to one
/// resource, a request for any other resource needs a bind, whatever the
/// two hold.
pub proof fn lemma_other_resource_needs_bind<T: EngineCacher>(
    ctx: EngineContext,
    bound: Handle<T>,
    other: Handle<T>,
    live: Set<u64>,
)
    requires
        bound.id != other.id,
    ensures
        T::with_cache(ctx, bound.weak()).needs_bind(other, live),
{
    T::lemma_cache(ctx, bound.weak());
}

/// What a request for a texture asks of the caller.
#[derive(Clone, Copy, Debug, PartialEq, Eq)]
pub enum TextureBind {
    /// The texture is bound to this unit already: there is nothing to do.
    Resident(u32),
    /// The texture has to be bound to this unit, and the outcome handed to
    /// [`EngineContext::finish_bind`].
    Needed(u32),
}

/// What the binding callback of a texture returned, read off the result of
/// the request.
pub open spec fn bind_outcome<E>(result: Result<u32, E>) -> Result<(), E> {
    match result {
        Ok(_) => Ok(()),
        Err(e) => Err(e),
    }
}

impl EngineContext {
    /// The table of texture units, least recently used first.
    pub open spec fn table(&self) -> Seq<Entry> {
        self.textures@
    }

    /// The number of texture units, as a mathematical integer.
    pub open spec fn capacity(&self) -> int {
        self.max_texture_units as int
    }

    /// The invariant of the context: its texture table is well-formed.
    pub open spec fn wf(&self) -> bool {
        table_wf(self.table(), self.capacity())
    }

    /// Whether this context is `before` with `table` for its texture table
    /// and nothing else changed.
    pub open spec fn is_with_table(&self, before: EngineContext, table: Seq<Entry>) -> bool {
        self.table() == table && *self == (EngineContext { textures: self.textures, ..before })
    }

    /// Whether a resource has to be bound: it has, unless the reference kept
    /// for its kind resolves to that very resource.
    pub open spec fn needs_bind<T: EngineCacher>(&self, new_p: Handle<T>, live: Set<u64>) -> bool {
        !T::cache_of(*self).points_to(new_p, live)
    }

    /// A context with [`MAX_TEXTURE_UNITS`] texture units and nothing bound.
    pub fn new() -> (ctx: EngineContext)
        ensures
            ctx.wf(),
            ctx.table() == Seq::<Entry>::empty(),
            ctx.max_texture_units == MAX_TEXTURE_UNITS,
            ctx.prog == WeakHandle::<ShaderProgram>::empty(),
            ctx.mesh_buffer == WeakHandle::<MeshBuffer>::empty(),
            ctx.switch_mesh == 0 && ctx.switch_prog == 0 && ctx.switch_tex == 0,
            ctx.states.applied() == MaterialState::unset(),
            ctx.states.pending() == MaterialState::unset(),
            ctx.last_light_bound is None,
            ctx.last_material_bound is None,
    {
        EngineContext::with_texture_units(MAX_TEXTURE_UNITS)
    }

    /// A context with `units` texture units and nothing bound.
    pub fn with_texture_units(units: u32) -> (ctx: EngineContext)
        requires
            1 <= units,
        ensures
            ctx.wf(),
            ctx.table() == Seq::<Entry>::empty(),
            ctx.max_texture_units == units,
            ctx.prog == WeakHandle::<ShaderProgram>::empty(),
            ctx.mesh_buffer == WeakHandle::<MeshBuffer>::empty(),
            ctx.switch_mesh == 0 && ctx.switch_prog == 0 && ctx.switch_tex == 0,
            ctx.states.applied() == MaterialState::unset(),
            ctx.states.pending() == MaterialState::unset(),
            ctx.last_light_bound is None,
            ctx.last_material_bound is None,
    {
        EngineContext {
            mesh_buffer: WeakHandle::new(),
            prog: WeakHandle::new(),
            textures: VecDeque::new(),
            max_texture_units: units,
            switch_mesh: 0,
            switch_prog: 0,
            switch_tex: 0,
            states: StateCache::default(),
            last_light_bound: None,
            last_material_bound: None,
        }
    }

    /// Checks the invariant at run time, for callers that cannot know it
    /// otherwise. A context that was made by this library and whose fields
    /// nobody else has written to always passes.
    pub fn is_wf(&self) -> (ok: bool)
        ensures
            ok == self.wf(),
    {
        let len = self.textures.len();
        if self.max_texture_units < 1 || len > self.max_texture_units as usize {
            return false;
        }
        let mut i: usize = 0;
        while i < len
            invariant
                len == self.textures@.len(),
                i <= len,
                forall|a: int| 0 <= a < i ==> (#[trigger] self.textures@[a]).0 < len,
                forall|a: int, b: int|
                    0 <= a < b < i ==> (#[trigger] self.textures@[a]).0 != (
                    #[trigger] self.textures@[b]).0,
            decreases len - i,
        {
            let unit = self.textures[i].0;
            if unit as usize >= len {
                return false;
            }
            let mut j: usize = 0;
            while j < i
                invariant
                    len == self.textures@.len(),
                    j <= i < len,
                    unit == self.textures@[i as int].0,
                    forall|a: int| 0 <= a < j ==> (#[trigger] self.textures@[a]).0 != unit,
                decreases i - j,
            {
                if self.textures[j].0 == unit {
                    return false;
                }
                j += 1;
            }
            i += 1;
        }
        true
    }

    /// Whether `new_p` has to be bound. The context is left as it was.
    pub fn need_cache<T: EngineCacher>(
        &mut self,
        new_p: &Handle<T>,
        live: &HashSet<u64>,
    ) -> (need: bool)
        ensures
            need == old(self).needs_bind(*new_p, live@),
            *final(self) == *old(self),
    {
        proof {
            T::lemma_cache(*self, T::cache_of(*self));
        }
        let slot = T::get_cache(self);
        !slot.refers_to(new_p, live)
    }

    /// Takes note of how the bind of `new_p` ended: after a successful one
    /// the context refers to `new_p`, after a failed one it is as it was.
    /// The outcome is handed back.
    pub fn record_bind<T: EngineCacher, E>(
        &mut self,
        new_p: &Handle<T>,
        outcome: Result<(), E>,
    ) -> (result: Result<(), E>)
        ensures
            result == outcome,
            outcome is Ok ==> *final(self) == T::with_cache(*old(self), new_p.weak()),
            outcome is Err ==> *final(self) == *old(self),
            old(self).wf() ==> final(self).wf(),
    {
        proof {
            T::lemma_cache(*self, new_p.weak());
        }
        match outcome {
            Ok(done) => {
                let slot = T::get_cache(self);
                *slot = new_p.downgrade();
                Ok(done)
            },
            Err(e) => Err(e),
        }
    }

    /// Makes sure that `new_p` is the resource bound for its kind.
    ///
    /// Where the context already refers to `new_p`, nothing happens: `bind`
    /// is not called, which is why nothing is asked of it for that case.
    /// Otherwise `bind` is called, once. If it succeeds the context refers to
    /// `new_p` from then on; if it fails the context is as it was and the
    /// error is returned.
    pub fn prepare_cache<T, E, F>(
        &mut self,
        new_p: &Handle<T>,
        live: &HashSet<u64>,
        bind: F,
    ) -> (result: Result<(), E>) where T: EngineCacher, F: FnOnce() -> Result<(), E>
        requires
            old(self).needs_bind(*new_p, live@) ==> call_requires(bind, ()),
        ensures
            !old(self).needs_bind(*new_p, live@) ==> result is Ok && *final(self) == *old(self),
            old(self).needs_bind(*new_p, live@) ==> call_ensures(bind, (), result),
            old(self).needs_bind(*new_p, live@) && result is Ok ==> *final(self) == T::with_cache(
                *old(self),
                new_p.weak(),
            ),
            result is Err ==> *final(self) == *old(self),
            old(self).wf() ==> final(self).wf(),
    {
        if self.need_cache(new_p, live) {
            let outcome = bind();
            self.record_bind(new_p, outcome)
        } else {
            Ok(())
        }
    }

    /// Looks for the unit that holds `new_tex`: the position in the table
    /// and the unit index of the first entry whose reference resolves to
    /// that texture. Entries whose texture is gone never match.
    pub fn find_cache_tex(
        &self,
        new_tex: &Handle<Texture>,
        live: &HashSet<u64>,
    ) -> (found: Option<(usize, u32)>)
        ensures
            match found {
                Some((pos, unit)) => {
                    &&& find_spec(self.table(), *new_tex, live@) == Some(pos as int)
                    &&& pos < self.table().len()
                    &&& unit == self.table()[pos as int].0
                },
                None => find_spec(self.table(), *new_tex, live@) is None,
            },
    {
        let mut pos: usize = 0;
        while pos < self.textures.len()
            invariant
                pos <= self.textures@.len(),
                first_from(self.textures@, holds(*new_tex, live@), pos as int) == find_spec(
                    self.textures@,
                    *new_tex,
                    live@,
                ),
            decreases self.textures@.len() - pos,
        {
            let entry = &self.textures[pos];
            if entry.1.refers_to(new_tex, live) {
                return Some((pos, entry.0));
            }
            pos += 1;
        }
        None
    }

    /// The position of the first entry whose texture is gone.
    fn find_dead(&self, live: &HashSet<u64>) -> (found: Option<usize>)
        ensures
            match found {
                Some(pos) => {
                    &&& first_dead(self.table(), live@) == Some(pos as int)
                    &&& pos < self.table().len()
                },
                None => first_dead(self.table(), live@) is None,
            },
    {
        let mut pos: usize = 0;
        while pos < self.textures.len()
            invariant
                pos <= self.textures@.len(),
                first_from(self.textures@, dead(live@), pos as int) == first_dead(
                    self.textures@,
                    live@,
                ),
            decreases self.textures@.len() - pos,
        {
            if self.textures[pos].1.upgrade(live).is_none() {
                return Some(pos);
            }
            pos += 1;
        }
        None
    }

    /// Takes a unit for a texture that the table does not hold. While the
    /// table has room this is the next unused index. Once it is full, the
    /// unit of the first entry whose texture is gone is taken, and only
    /// where every texture is alive that of the head, the least recently
    /// used; the entry leaves the table.
    pub fn reserve_unit(&mut self, live: &HashSet<u64>) -> (unit: u32)
        requires
            old(self).wf(),
        ensures
            unit == free_unit(old(self).table(), old(self).capacity(), live@),
            final(self).is_with_table(
                *old(self),
                without_victim(old(self).table(), old(self).capacity(), live@),
            ),
            reserved(final(self).table(), final(self).capacity(), unit),
    {
        proof {
            lemma_reserve(self.table(), self.capacity(), live@);
        }
        let len = self.textures.len();
        if len < self.max_texture_units as usize {
            return len as u32;
        }
        let taken = match self.find_dead(live) {
            Some(pos) => self.textures.remove(pos),
            None => self.textures.pop_front(),
        };
        assert(self.textures@ =~= old(self).table().remove(victim(old(self).table(), live@)));
        taken.unwrap().0
    }

    /// Decides what a request for `new_tex` takes. Where a unit holds the
    /// texture, its entry moves to the tail and the unit is named as
    /// resident. Otherwise a unit is taken as
    /// [`EngineContext::reserve_unit`] says and named as needing a bind,
    /// whose outcome is owed to [`EngineContext::finish_bind`].
    pub fn begin_bind(
        &mut self,
        new_tex: &Handle<Texture>,
        live: &HashSet<u64>,
    ) -> (plan: TextureBind)
        requires
            old(self).wf(),
        ensures
            match plan {
                TextureBind::Resident(unit) => {
                    &&& find_spec(old(self).table(), *new_tex, live@) matches Some(pos)
                    &&& unit == old(self).table()[pos].0
                    &&& final(self).is_with_table(*old(self), after_hit(old(self).table(), pos))
                    &&& final(self).wf()
                },
                TextureBind::Needed(unit) => {
                    &&& find_spec(old(self).table(), *new_tex, live@) is None
                    &&& unit == free_unit(old(self).table(), old(self).capacity(), live@)
                    &&& final(self).is_with_table(
                        *old(self),
                        without_victim(old(self).table(), old(self).capacity(), live@),
                    )
                    &&& reserved(final(self).table(), final(self).capacity(), unit)
                },
            },
    {
        if let Some((pos, unit)) = self.find_cache_tex(new_tex, live) {
            proof {
                lemma_find_is_first(self.table(), *new_tex, live@);
                lemma_hit(self.table(), self.capacity(), pos as int);
            }
            self.textures.remove(pos);
            self.textures.push_back((unit, new_tex.downgrade()));
            assert(self.textures@ =~= after_hit(old(self).table(), pos as int));
            return TextureBind::Resident(unit);
        }
        TextureBind::Needed(self.reserve_unit(live))
    }

    /// Puts a reserved unit back once the bind at it has been tried. After a
    /// successful bind the unit holds `new_tex` and is the most recently
    /// used. After a failed one it stands at the head with a reference that
    /// never resolves, so that it is the first to be taken again, and the
    /// error is handed back.
    pub fn finish_bind<E>(
        &mut self,
        unit: u32,
        new_tex: &Handle<Texture>,
        outcome: Result<(), E>,
    ) -> (result: Result<u32, E>)
        requires
            reserved(old(self).table(), old(self).capacity(), unit),
        ensures
            final(self).wf(),
            final(self).is_with_table(
                *old(self),
                settled(old(self).table(), unit, *new_tex, outcome is Ok),
            ),
            outcome is Ok ==> result == Ok::<u32, E>(unit),
            bind_outcome(result) == outcome,
    {
        proof {
            lemma_settle(self.table(), self.capacity(), unit, *new_tex, outcome is Ok);
        }
        match outcome {
            Ok(done) => {
                assert(done == ());
                self.textures.push_back((unit, new_tex.downgrade()));
                Ok(unit)
            },
            Err(e) => {
                self.textures.push_front((unit, WeakHandle::new()));
                Err(e)
            },
        }
    }

    /// Makes sure that `new_tex` is bound to a texture unit and says which.
    ///
    /// Where a unit holds the texture already, that unit becomes the most
    /// recently used and is returned: `bind_func` is not called, which is
    /// why nothing is asked of it for that case. Otherwise a unit is taken as
    /// [`EngineContext::reserve_unit`] says, one that no entry of the table
    /// has, and `bind_func` is called with it, once. The table then changes
    /// as [`EngineContext::finish_bind`] says, and the result is the unit or
    /// the error of `bind_func`.
    pub fn prepare_cache_tex<E, F>(
        &mut self,
        new_tex: &Handle<Texture>,
        live: &HashSet<u64>,
        bind_func: F,
    ) -> (result: Result<u32, E>) where F: FnOnce(u32) -> Result<(), E>
        requires
            old(self).wf(),
            find_spec(old(self).table(), *new_tex, live@) is None ==> call_requires(
                bind_func,
                (free_unit(old(self).table(), old(self).capacity(), live@),),
            ),
        ensures
            final(self).wf(),
            final(self).is_with_table(
                *old(self),
                table_after(old(self).table(), old(self).capacity(), *new_tex, live@, result is Ok),
            ),
            find_spec(old(self).table(), *new_tex, live@) is Some ==> result is Ok,
            find_spec(old(self).table(), *new_tex, live@) is None ==> call_ensures(
                bind_func,
                (free_unit(old(self).table(), old(self).capacity(), live@),),
                bind_outcome(result),
            ),
            result matches Ok(unit) ==> unit == unit_for(
                old(self).table(),
                old(self).capacity(),
                *new_tex,
                live@,
            ),
    {
        match self.begin_bind(new_tex, live) {
            TextureBind::Resident(unit) => Ok(unit),
            TextureBind::Needed(unit) => {
                let outcome = bind_func(unit);
                self.finish_bind(unit, new_tex, outcome)
            },
        }
    }
}

} // verus!
