//! The render-state cache: what materials ask for is gathered first and
//! compared with what the device has only when it is committed.

use crate::device::{Capability, DeviceCall, Face, StateField};
use crate::render_state::{
    CullMode, DepthTest, MaterialState, BASELINE_ALPHA_BLENDING, BASELINE_CULL, BASELINE_DEPTH_TEST,
    BASELINE_DEPTH_WRITE,
};
use vstd::prelude::*;

verus! {

/// The calls that set face culling to `mode`: culling is switched off for
/// `Off`, and for every other mode switched on before the faces are chosen.
pub open spec fn cull_calls(mode: CullMode) -> Seq<DeviceCall> {
    match mode {
        CullMode::Off => seq![DeviceCall::Disable(Capability::CullFace)],
        CullMode::Front => seq![
            DeviceCall::Enable(Capability::CullFace),
            DeviceCall::CullFace(Face::Front),
        ],
        CullMode::Back => seq![
            DeviceCall::Enable(Capability::CullFace),
            DeviceCall::CullFace(Face::Back),
        ],
        CullMode::FrontAndBack => seq![
            DeviceCall::Enable(Capability::CullFace),
            DeviceCall::CullFace(Face::FrontAndBack),
        ],
    }
}

/// The calls that set the depth test to `test`: `Never` switches depth
/// testing off as a whole; every other comparison switches it on and is then
/// chosen.
pub open spec fn depth_test_calls(test: DepthTest) -> Seq<DeviceCall> {
    if test == DepthTest::Never {
        seq![DeviceCall::Disable(Capability::DepthTest)]
    } else {
        seq![DeviceCall::Enable(Capability::DepthTest), DeviceCall::DepthFunc(test)]
    }
}

/// The call that allows or forbids depth writes.
pub open spec fn depth_write_calls(on: bool) -> Seq<DeviceCall> {
    seq![DeviceCall::DepthMask(on)]
}

/// The call that switches blending on or off.
pub open spec fn alpha_blending_calls(on: bool) -> Seq<DeviceCall> {
    if on {
        seq![DeviceCall::Enable(Capability::Blend)]
    } else {
        seq![DeviceCall::Disable(Capability::Blend)]
    }
}

/// Whether a commit has to touch a field: it has where a value is pending
/// and the device is not known to have that value.
pub open spec fn differs<T>(applied: Option<T>, pending: Option<T>) -> bool {
    pending is Some && pending != applied
}

/// The calls of a commit that concern face culling.
pub open spec fn cull_update(applied: Option<CullMode>, pending: Option<CullMode>) -> Seq<
    DeviceCall,
> {
    if differs(applied, pending) {
        cull_calls(pending->0)
    } else {
        Seq::empty()
    }
}

/// The calls of a commit that concern the depth test.
pub open spec fn depth_test_update(applied: Option<DepthTest>, pending: Option<DepthTest>) -> Seq<
    DeviceCall,
> {
    if differs(applied, pending) {
        depth_test_calls(pending->0)
    } else {
        Seq::empty()
    }
}

/// The calls of a commit that concern depth writes.
pub open spec fn depth_write_update(applied: Option<bool>, pending: Option<bool>) -> Seq<
    DeviceCall,
> {
    if differs(applied, pending) {
        depth_write_calls(pending->0)
    } else {
        Seq::empty()
    }
}

/// The calls of a commit that concern blending.
pub open spec fn alpha_blending_update(applied: Option<bool>, pending: Option<bool>) -> Seq<
    DeviceCall,
> {
    if differs(applied, pending) {
        alpha_blending_calls(pending->0)
    } else {
        Seq::empty()
    }
}

/// The calls of a commit that concern one field.
pub open spec fn field_update(
    applied: MaterialState,
    pending: MaterialState,
    field: StateField,
) -> Seq<DeviceCall> {
    match field {
        StateField::Cull => cull_update(applied.cull, pending.cull),
        StateField::DepthTest => depth_test_update(applied.depth_test, pending.depth_test),
        StateField::DepthWrite => depth_write_update(applied.depth_write, pending.depth_write),
        StateField::AlphaBlending => alpha_blending_update(
            applied.alpha_blending,
            pending.alpha_blending,
        ),
    }
}

/// The calls that a commit issues, in order: culling, depth test, depth
/// writes, blending, each only where the field differs.
pub open spec fn commit_calls(applied: MaterialState, pending: MaterialState) -> Seq<DeviceCall> {
    field_update(applied, pending, StateField::Cull) + field_update(
        applied,
        pending,
        StateField::DepthTest,
    ) + field_update(applied, pending, StateField::DepthWrite) + field_update(
        applied,
        pending,
        StateField::AlphaBlending,
    )
}

/// The pending state after a run of overlays: each is laid upon what was
/// pending before it, so that per field the last one to speak wins.
pub open spec fn apply_all(pending: MaterialState, overlays: Seq<MaterialState>) -> MaterialState
    decreases overlays.len(),
{
    if overlays.len() == 0 {
        pending
    } else {
        overlays.last().over(apply_all(pending, overlays.drop_last()))
    }
}

/// Whether a commit has to touch `field`.
pub open spec fn field_differs(
    applied: MaterialState,
    pending: MaterialState,
    field: StateField,
) -> bool {
    match field {
        StateField::Cull => differs(applied.cull, pending.cull),
        StateField::DepthTest => differs(applied.depth_test, pending.depth_test),
        StateField::DepthWrite => differs(applied.depth_write, pending.depth_write),
        StateField::AlphaBlending => differs(applied.alpha_blending, pending.alpha_blending),
    }
}

/// The calls that change `field`.
pub open spec fn concerns(field: StateField) -> spec_fn(DeviceCall) -> bool {
    |call: DeviceCall| call.field() == field
}

/// Of the calls of a commit, those that change `field`.
pub open spec fn committed_for(
    applied: MaterialState,
    pending: MaterialState,
    field: StateField,
) -> Seq<DeviceCall> {
    commit_calls(applied, pending).filter(concerns(field))
}

proof fn lemma_filter_all_or_none<A>(s: Seq<A>, pred: spec_fn(A) -> bool)
    ensures
        (forall|i: int| 0 <= i < s.len() ==> pred(#[trigger] s[i])) ==> s.filter(pred) == s,
        (forall|i: int| 0 <= i < s.len() ==> !pred(#[trigger] s[i])) ==> s.filter(pred)
            == Seq::<A>::empty(),
    decreases s.len(),
{
    reveal(Seq::filter);
    if s.len() > 0 {
        lemma_filter_all_or_none(s.drop_last(), pred);
        assert forall|i: int| 0 <= i < s.drop_last().len() implies s.drop_last()[i] == s[i] by {}
        if forall|i: int| 0 <= i < s.len() ==> pred(#[trigger] s[i]) {
            assert(pred(s.last()));
            assert(s.drop_last().push(s.last()) =~= s);
        }
        if forall|i: int| 0 <= i < s.len() ==> !pred(#[trigger] s[i]) {
            assert(!pred(s.last()));
        }
    }
}

proof fn lemma_update_concerns_own_field(
    applied: MaterialState,
    pending: MaterialState,
    part: StateField,
    field: StateField,
)
    ensures
        field_update(applied, pending, part).filter(concerns(field)) == if part == field {
            field_update(applied, pending, part)
        } else {
            Seq::<DeviceCall>::empty()
        },
{
    let calls = field_update(applied, pending, part);
    assert forall|i: int| 0 <= i < calls.len() implies (#[trigger] calls[i]).field() == part by {}
    lemma_filter_all_or_none(calls, concerns(field));
}

/// Of the calls of a commit, those that change a field are that field's own
/// update and nothing more.
pub proof fn lemma_committed_for(applied: MaterialState, pending: MaterialState, field: StateField)
    ensures
        committed_for(applied, pending, field) == field_update(applied, pending, field),
{
    let cull = field_update(applied, pending, StateField::Cull);
    let test = field_update(applied, pending, StateField::DepthTest);
    let write = field_update(applied, pending, StateField::DepthWrite);
    let blend = field_update(applied, pending, StateField::AlphaBlending);
    let pred = concerns(field);
    lemma_update_concerns_own_field(applied, pending, StateField::Cull, field);
    lemma_update_concerns_own_field(applied, pending, StateField::DepthTest, field);
    lemma_update_concerns_own_field(applied, pending, StateField::DepthWrite, field);
    lemma_update_concerns_own_field(applied, pending, StateField::AlphaBlending, field);
    Seq::filter_distributes_over_add(cull, test, pred);
    Seq::filter_distributes_over_add(cull + test, write, pred);
    Seq::filter_distributes_over_add(cull + test + write, blend, pred);
    assert(cull.filter(pred) + test.filter(pred) + write.filter(pred) + blend.filter(pred)
        =~= field_update(applied, pending, field));
}

/// A commit that follows a commit at once, with nothing applied in between,
/// issues no call.
pub proof fn lemma_recommit_is_silent(applied: MaterialState, pending: MaterialState)
    ensures
        commit_calls(pending.over(applied), pending) == Seq::<DeviceCall>::empty(),
{
    let now = pending.over(applied);
    assert(field_update(now, pending, StateField::Cull) == Seq::<DeviceCall>::empty());
    assert(field_update(now, pending, StateField::DepthTest) == Seq::<DeviceCall>::empty());
    assert(field_update(now, pending, StateField::DepthWrite) == Seq::<DeviceCall>::empty());
    assert(field_update(now, pending, StateField::AlphaBlending) == Seq::<DeviceCall>::empty());
    assert(commit_calls(now, pending) =~= Seq::<DeviceCall>::empty());
}

/// No call occurs twice among the calls of one commit.
pub proof fn lemma_commit_repeats_no_call(applied: MaterialState, pending: MaterialState)
    ensures
        commit_calls(applied, pending).no_duplicates(),
{
    let cull = field_update(applied, pending, StateField::Cull);
    let test = field_update(applied, pending, StateField::DepthTest);
    let write = field_update(applied, pending, StateField::DepthWrite);
    let blend = field_update(applied, pending, StateField::AlphaBlending);
    let calls = commit_calls(applied, pending);
    assert(cull.no_duplicates());
    assert(test.no_duplicates());
    assert(write.no_duplicates());
    assert(blend.no_duplicates());
    assert forall|i: int| 0 <= i < cull.len() implies (#[trigger] cull[i]).field()
        == StateField::Cull by {}
    assert forall|i: int| 0 <= i < test.len() implies (#[trigger] test[i]).field()
        == StateField::DepthTest by {}
    assert forall|i: int| 0 <= i < write.len() implies (#[trigger] write[i]).field()
        == StateField::DepthWrite by {}
    assert forall|i: int| 0 <= i < blend.len() implies (#[trigger] blend[i]).field()
        == StateField::AlphaBlending by {}
    assert forall|i: int, j: int| 0 <= i < j < calls.len() implies calls[i] != calls[j] by {
        let a = cull.len() as int;
        let b = a + test.len();
        let c = b + write.len();
        let fi = calls[i].field();
        let fj = calls[j].field();
        if i < a {
            assert(calls[i] == cull[i]);
        } else if i < b {
            assert(calls[i] == test[i - a]);
        } else if i < c {
            assert(calls[i] == write[i - b]);
        } else {
            assert(calls[i] == blend[i - c]);
        }
        if j < a {
            assert(calls[j] == cull[j]);
        } else if j < b {
            assert(calls[j] == test[j - a]);
        } else if j < c {
            assert(calls[j] == write[j - b]);
        } else {
            assert(calls[j] == blend[j - c]);
        }
    }
}

/// State diff minimality. After any run of overlays, the calls of a commit
/// that change a field are that field's own update and nothing more: the
/// calls that set the merged value, once, where a value is pending and
/// differs from the one applied by the previous commit, and no call at all
/// where nothing is pending or the value is the applied one. No call occurs
/// twice in the commit, and a commit that follows at once issues nothing.
pub proof fn lemma_commit_is_minimal(
    applied: MaterialState,
    pending: MaterialState,
    overlays: Seq<MaterialState>,
    field: StateField,
)
    ensures
        ({
            let merged = apply_all(pending, overlays);
            &&& committed_for(applied, merged, field) == field_update(applied, merged, field)
            &&& !field_differs(applied, merged, field) ==> committed_for(applied, merged, field)
                == Seq::<DeviceCall>::empty()
            &&& field_differs(applied, merged, field) ==> committed_for(
                applied,
                merged,
                field,
            ).len() > 0
            &&& commit_calls(applied, merged).no_duplicates()
            &&& commit_calls(merged.over(applied), merged) == Seq::<DeviceCall>::empty()
        }),
{
    let merged = apply_all(pending, overlays);
    lemma_committed_for(applied, merged, field);
    lemma_commit_repeats_no_call(applied, merged);
    lemma_recommit_is_silent(applied, merged);
}

/// Committing a depth test of `Never` switches depth testing off and does
/// not choose a comparison; committing any other comparison switches depth
/// testing on and then chooses that comparison.
pub proof fn lemma_never_disables_depth_test(applied: MaterialState, pending: MaterialState)
    requires
        differs(applied.depth_test, pending.depth_test),
    ensures
        pending.depth_test == Some(DepthTest::Never) ==> committed_for(
            applied,
            pending,
            StateField::DepthTest,
        ) == seq![DeviceCall::Disable(Capability::DepthTest)],
        pending.depth_test != Some(DepthTest::Never) ==> committed_for(
            applied,
            pending,
            StateField::DepthTest,
        ) == seq![
            DeviceCall::Enable(Capability::DepthTest),
            DeviceCall::DepthFunc(pending.depth_test->0),
        ],
{
    lemma_committed_for(applied, pending, StateField::DepthTest);
}

/// The render state of the device as far as it is known, and the state that
/// the next commit is to establish.
pub struct StateCache {
    state: MaterialState,
    curr: MaterialState,
}

impl Default for StateCache {
    fn default() -> (cache: StateCache)
        ensures
            cache.applied() == MaterialState::unset(),
            cache.pending() == MaterialState::unset(),
    {
        StateCache { state: MaterialState::default(), curr: MaterialState::default() }
    }
}

impl StateCache {
    /// What the device has, as last confirmed by a commit.
    pub closed spec fn applied(&self) -> MaterialState {
        self.state
    }

    /// What the next commit is to establish.
    pub closed spec fn pending(&self) -> MaterialState {
        self.curr
    }

    /// What the device has, as last confirmed by a commit.
    pub fn applied_state(&self) -> (state: MaterialState)
        ensures
            state == self.applied(),
    {
        self.state
    }

    /// What the next commit is to establish.
    pub fn pending_state(&self) -> (state: MaterialState)
        ensures
            state == self.pending(),
    {
        self.curr
    }

    /// Makes the baseline pending, whatever was pending before: back faces
    /// culled, depth test `Less`, depth written, no blending.
    pub fn apply_defaults(&mut self)
        ensures
            final(self).pending() == MaterialState::baseline(),
            final(self).pending() == (MaterialState {
                cull: Some(CullMode::Back),
                depth_test: Some(DepthTest::Less),
                depth_write: Some(true),
                alpha_blending: Some(false),
            }),
            final(self).applied() == old(self).applied(),
    {
        self.curr = MaterialState {
            cull: Some(BASELINE_CULL),
            depth_test: Some(BASELINE_DEPTH_TEST),
            alpha_blending: Some(BASELINE_ALPHA_BLENDING),
            depth_write: Some(BASELINE_DEPTH_WRITE),
        }
    }

    /// Lays `ms` upon what is pending: a field that `ms` sets replaces the
    /// pending one, a field that it leaves open keeps it.
    pub fn apply(&mut self, ms: &MaterialState)
        ensures
            final(self).pending() == ms.over(old(self).pending()),
            final(self).applied() == old(self).applied(),
    {
        if let Some(s) = ms.cull {
            self.curr.cull = Some(s);
        }
        if let Some(s) = ms.depth_test {
            self.curr.depth_test = Some(s);
        }
        if let Some(s) = ms.depth_write {
            self.curr.depth_write = Some(s);
        }
        if let Some(s) = ms.alpha_blending {
            self.curr.alpha_blending = Some(s);
        }
    }

    /// Brings the device to what is pending. The calls to make are returned
    /// in the order in which they are to be made; the cache takes them as
    /// made. A field is touched only where a value is pending and differs
    /// from the applied one; a field with nothing pending stays as applied.
    pub fn commit(&mut self) -> (calls: Vec<DeviceCall>)
        ensures
            calls@ == commit_calls(old(self).applied(), old(self).pending()),
            final(self).applied() == old(self).pending().over(old(self).applied()),
            final(self).pending() == old(self).pending(),
    {
        let mut calls: Vec<DeviceCall> = Vec::new();
        let pending = self.curr;
        if let Some(s) = pending.cull {
            self.apply_cull(&mut calls, s);
        }
        if let Some(s) = pending.depth_test {
            self.apply_depth_test(&mut calls, s);
        }
        if let Some(s) = pending.depth_write {
            self.apply_depth_write(&mut calls, s);
        }
        if let Some(s) = pending.alpha_blending {
            self.apply_alpha_blending(&mut calls, s);
        }
        assert(calls@ =~= commit_calls(old(self).state, old(self).curr));
        calls
    }

    fn apply_depth_write(&mut self, calls: &mut Vec<DeviceCall>, b: bool)
        ensures
            final(calls)@ == old(calls)@ + depth_write_update(old(self).state.depth_write, Some(b)),
            final(self).state == (MaterialState { depth_write: Some(b), ..old(self).state }),
            final(self).curr == old(self).curr,
    {
        if let Some(curr_b) = self.state.depth_write {
            if curr_b == b {
                assert(calls@ =~= old(calls)@ + Seq::<DeviceCall>::empty());
                return ;
            }
        }
        calls.push(DeviceCall::DepthMask(b));
        self.state.depth_write = Some(b);
        assert(calls@ =~= old(calls)@ + depth_write_calls(b));
    }

    fn apply_alpha_blending(&mut self, calls: &mut Vec<DeviceCall>, b: bool)
        ensures
            final(calls)@ == old(calls)@ + alpha_blending_update(
                old(self).state.alpha_blending,
                Some(b),
            ),
            final(self).state == (MaterialState { alpha_blending: Some(b), ..old(self).state }),
            final(self).curr == old(self).curr,
    {
        if let Some(curr_b) = self.state.alpha_blending {
            if curr_b == b {
                assert(calls@ =~= old(calls)@ + Seq::<DeviceCall>::empty());
                return ;
            }
        }
        if b {
            calls.push(DeviceCall::Enable(Capability::Blend));
        } else {
            calls.push(DeviceCall::Disable(Capability::Blend));
        }
        self.state.alpha_blending = Some(b);
        assert(calls@ =~= old(calls)@ + alpha_blending_calls(b));
    }

    fn apply_depth_test(&mut self, calls: &mut Vec<DeviceCall>, ct: DepthTest)
        ensures
            final(calls)@ == old(calls)@ + depth_test_update(old(self).state.depth_test, Some(ct)),
            final(self).state == (MaterialState { depth_test: Some(ct), ..old(self).state }),
            final(self).curr == old(self).curr,
    {
        if let Some(s) = self.state.depth_test {
            if s == ct {
                assert(calls@ =~= old(calls)@ + Seq::<DeviceCall>::empty());
                return ;
            }
        }
        if let DepthTest::Never = ct {
            calls.push(DeviceCall::Disable(Capability::DepthTest));
        } else {
            calls.push(DeviceCall::Enable(Capability::DepthTest));
            calls.push(DeviceCall::DepthFunc(ct));
        }
        self.state.depth_test = Some(ct);
        assert(calls@ =~= old(calls)@ + depth_test_calls(ct));
    }

    fn apply_cull(&mut self, calls: &mut Vec<DeviceCall>, cm: CullMode)
        ensures
            final(calls)@ == old(calls)@ + cull_update(old(self).state.cull, Some(cm)),
            final(self).state == (MaterialState { cull: Some(cm), ..old(self).state }),
            final(self).curr == old(self).curr,
    {
        if let Some(s) = self.state.cull {
            if s == cm {
                assert(calls@ =~= old(calls)@ + Seq::<DeviceCall>::empty());
                return ;
            }
        }
        match cm {
            CullMode::Off => {
                calls.push(DeviceCall::Disable(Capability::CullFace));
            },
            CullMode::Front => {
                calls.push(DeviceCall::Enable(Capability::CullFace));
                calls.push(DeviceCall::CullFace(Face::Front));
            },
            CullMode::Back => {
                calls.push(DeviceCall::Enable(Capability::CullFace));
                calls.push(DeviceCall::CullFace(Face::Back));
            },
            CullMode::FrontAndBack => {
                calls.push(DeviceCall::Enable(Capability::CullFace));
                calls.push(DeviceCall::CullFace(Face::FrontAndBack));
            },
        }
        self.state.cull = Some(cm);
        assert(calls@ =~= old(calls)@ + cull_calls(cm));
    }
}

} // verus!
