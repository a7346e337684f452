use render_cache::context::{EngineContext, TextureBind};
use render_cache::resource::{Handle, Texture, WeakHandle};
use std::collections::HashSet;

fn live(ids: &[u64]) -> HashSet<u64> {
    ids.iter().copied().collect()
}

fn tex(id: u64) -> Handle<Texture> {
    Handle::new(id)
}

fn table(ctx: &EngineContext) -> Vec<(u32, Option<u64>)> {
    ctx.textures.iter().map(|(unit, weak)| (*unit, weak.target)).collect()
}

/// Binds `t` and reports the unit with the number of device binds made.
fn bind(ctx: &mut EngineContext, t: &Handle<Texture>, alive: &HashSet<u64>) -> (u32, u32) {
    let mut calls = 0;
    let mut at = None;
    let r: Result<u32, String> = ctx.prepare_cache_tex(t, alive, |unit| {
        calls += 1;
        at = Some(unit);
        Ok(())
    });
    let unit = r.unwrap();
    if let Some(called_with) = at {
        assert_eq!(called_with, unit);
    }
    (unit, calls)
}

#[test]
fn dead_unit_is_reused_with_two_units() {
    let (a, b, c) = (tex(1), tex(2), tex(3));
    let mut ctx = EngineContext::with_texture_units(2);
    assert_eq!(bind(&mut ctx, &a, &live(&[1, 2, 3])), (0, 1));
    assert_eq!(bind(&mut ctx, &b, &live(&[1, 2, 3])), (1, 1));
    // the owner of A lets go of it
    assert_eq!(bind(&mut ctx, &c, &live(&[2, 3])), (0, 1));
    assert_eq!(table(&ctx), vec![(1, Some(2)), (0, Some(3))]);
}

#[test]
fn units_are_handed_out_in_sequence_until_full() {
    let mut ctx = EngineContext::new();
    let alive = live(&[10, 11, 12, 13, 14, 15, 16, 17, 18]);
    for i in 0..8u64 {
        assert_eq!(bind(&mut ctx, &tex(10 + i), &alive), (i as u32, 1));
    }
    assert_eq!(ctx.textures.len(), 8);
    // the ninth evicts the least recently used, which holds unit 0
    assert_eq!(bind(&mut ctx, &tex(18), &alive), (0, 1));
    assert_eq!(ctx.textures.len(), 8);
    assert_eq!(table(&ctx).first(), Some(&(1, Some(11))));
    assert_eq!(table(&ctx).last(), Some(&(0, Some(18))));
}

#[test]
fn dead_unit_is_preferred_to_the_least_recently_used() {
    let mut ctx = EngineContext::with_texture_units(3);
    let all = live(&[1, 2, 3, 4]);
    assert_eq!(bind(&mut ctx, &tex(1), &all).0, 0);
    assert_eq!(bind(&mut ctx, &tex(2), &all).0, 1);
    assert_eq!(bind(&mut ctx, &tex(3), &all).0, 2);
    // texture 2 is gone: its unit goes before that of texture 1, the head
    assert_eq!(bind(&mut ctx, &tex(4), &live(&[1, 3, 4])), (1, 1));
    assert_eq!(table(&ctx), vec![(0, Some(1)), (2, Some(3)), (1, Some(4))]);
}

#[test]
fn first_of_several_dead_units_is_taken() {
    let mut ctx = EngineContext::with_texture_units(3);
    let all = live(&[1, 2, 3, 4]);
    bind(&mut ctx, &tex(1), &all);
    bind(&mut ctx, &tex(2), &all);
    bind(&mut ctx, &tex(3), &all);
    assert_eq!(bind(&mut ctx, &tex(4), &live(&[1, 4])), (1, 1));
    assert_eq!(table(&ctx), vec![(0, Some(1)), (2, Some(3)), (1, Some(4))]);
}

#[test]
fn least_recently_used_is_evicted_when_all_are_alive() {
    let mut ctx = EngineContext::with_texture_units(2);
    let all = live(&[1, 2, 3]);
    bind(&mut ctx, &tex(1), &all);
    bind(&mut ctx, &tex(2), &all);
    assert_eq!(bind(&mut ctx, &tex(3), &all), (0, 1));
    assert_eq!(table(&ctx), vec![(1, Some(2)), (0, Some(3))]);
}

#[test]
fn dead_units_are_not_reclaimed_while_there_is_room() {
    let mut ctx = EngineContext::with_texture_units(3);
    assert_eq!(bind(&mut ctx, &tex(1), &live(&[1])).0, 0);
    assert_eq!(bind(&mut ctx, &tex(2), &live(&[2])).0, 1);
    assert_eq!(table(&ctx), vec![(0, Some(1)), (1, Some(2))]);
}

#[test]
fn bound_texture_moves_to_the_tail_without_a_device_call() {
    let mut ctx = EngineContext::with_texture_units(4);
    let all = live(&[1, 2, 3]);
    bind(&mut ctx, &tex(1), &all);
    bind(&mut ctx, &tex(2), &all);
    bind(&mut ctx, &tex(3), &all);
    assert_eq!(bind(&mut ctx, &tex(1), &all), (0, 0));
    assert_eq!(table(&ctx), vec![(1, Some(2)), (2, Some(3)), (0, Some(1))]);
    assert_eq!(bind(&mut ctx, &tex(1), &all), (0, 0));
    assert_eq!(table(&ctx), vec![(1, Some(2)), (2, Some(3)), (0, Some(1))]);
    assert_eq!(bind(&mut ctx, &tex(3), &all), (2, 0));
    assert_eq!(table(&ctx), vec![(1, Some(2)), (0, Some(1)), (2, Some(3))]);
}

#[test]
fn recently_used_texture_survives_eviction() {
    let mut ctx = EngineContext::with_texture_units(2);
    let all = live(&[1, 2, 3]);
    bind(&mut ctx, &tex(1), &all);
    bind(&mut ctx, &tex(2), &all);
    bind(&mut ctx, &tex(1), &all);
    // texture 2 is now the least recently used
    assert_eq!(bind(&mut ctx, &tex(3), &all), (1, 1));
    assert_eq!(table(&ctx), vec![(0, Some(1)), (1, Some(3))]);
}

#[test]
fn failed_bind_keeps_the_unit_at_the_head() {
    let mut ctx = EngineContext::with_texture_units(2);
    let all = live(&[1, 2, 3]);
    bind(&mut ctx, &tex(1), &all);
    let mut asked = None;
    let r: Result<u32, String> = ctx.prepare_cache_tex(&tex(2), &all, |unit| {
        asked = Some(unit);
        Err("upload failed".to_string())
    });
    assert_eq!(r, Err("upload failed".to_string()));
    assert_eq!(asked, Some(1));
    assert_eq!(table(&ctx), vec![(1, None), (0, Some(1))]);
    // the table is full: the unit of the failed bind is the next to go
    assert_eq!(bind(&mut ctx, &tex(3), &all), (1, 1));
    assert_eq!(table(&ctx), vec![(0, Some(1)), (1, Some(3))]);
}

#[test]
fn failed_bind_on_a_full_table_gives_the_unit_back() {
    let mut ctx = EngineContext::with_texture_units(2);
    let all = live(&[1, 2, 3, 4]);
    bind(&mut ctx, &tex(1), &all);
    bind(&mut ctx, &tex(2), &all);
    let r: Result<u32, u8> = ctx.prepare_cache_tex(&tex(3), &all, |_| Err(7));
    assert_eq!(r, Err(7));
    assert_eq!(table(&ctx), vec![(0, None), (1, Some(2))]);
    assert_eq!(bind(&mut ctx, &tex(4), &all), (0, 1));
    assert_eq!(table(&ctx), vec![(1, Some(2)), (0, Some(4))]);
}

#[test]
fn failed_bind_with_room_left_is_reclaimed_once_full() {
    let mut ctx = EngineContext::with_texture_units(3);
    let all = live(&[1, 2, 3, 4]);
    let r: Result<u32, u8> = ctx.prepare_cache_tex(&tex(1), &all, |_| Err(1));
    assert_eq!(r, Err(1));
    assert_eq!(table(&ctx), vec![(0, None)]);
    assert_eq!(bind(&mut ctx, &tex(2), &all), (1, 1));
    assert_eq!(bind(&mut ctx, &tex(3), &all), (2, 1));
    assert_eq!(table(&ctx), vec![(0, None), (1, Some(2)), (2, Some(3))]);
    assert_eq!(bind(&mut ctx, &tex(4), &all), (0, 1));
    assert_eq!(table(&ctx), vec![(1, Some(2)), (2, Some(3)), (0, Some(4))]);
}

#[test]
fn failed_bind_is_not_retried() {
    let mut ctx = EngineContext::new();
    let mut calls = 0;
    let r: Result<u32, u8> = ctx.prepare_cache_tex(&tex(1), &live(&[1]), |_| {
        calls += 1;
        Err(1)
    });
    assert!(r.is_err());
    assert_eq!(calls, 1);
}

#[test]
fn find_cache_tex_gives_position_and_unit() {
    let mut ctx = EngineContext::with_texture_units(4);
    let all = live(&[1, 2, 3]);
    bind(&mut ctx, &tex(1), &all);
    bind(&mut ctx, &tex(2), &all);
    bind(&mut ctx, &tex(3), &all);
    bind(&mut ctx, &tex(1), &all);
    assert_eq!(ctx.find_cache_tex(&tex(2), &all), Some((0, 1)));
    assert_eq!(ctx.find_cache_tex(&tex(3), &all), Some((1, 2)));
    assert_eq!(ctx.find_cache_tex(&tex(1), &all), Some((2, 0)));
    assert_eq!(ctx.find_cache_tex(&tex(9), &all), None);
}

#[test]
fn find_cache_tex_skips_entries_that_do_not_resolve() {
    let mut ctx = EngineContext::with_texture_units(4);
    bind(&mut ctx, &tex(1), &live(&[1]));
    assert_eq!(ctx.find_cache_tex(&tex(1), &live(&[1])), Some((0, 0)));
    assert_eq!(ctx.find_cache_tex(&tex(1), &live(&[])), None);
    let r: Result<u32, u8> = ctx.prepare_cache_tex(&tex(2), &live(&[2]), |_| Err(0));
    assert!(r.is_err());
    assert_eq!(table(&ctx), vec![(1, None), (0, Some(1))]);
    assert_eq!(ctx.find_cache_tex(&tex(2), &live(&[1, 2])), None);
}

#[test]
fn find_cache_tex_on_an_empty_table() {
    let ctx = EngineContext::new();
    assert_eq!(ctx.find_cache_tex(&tex(1), &live(&[1])), None);
}

#[test]
fn reserve_unit_then_finish_bind_by_hand() {
    let mut ctx = EngineContext::with_texture_units(2);
    let all = live(&[1, 2, 3]);
    let unit = ctx.reserve_unit(&all);
    assert_eq!(unit, 0);
    assert!(ctx.textures.is_empty());
    assert_eq!(ctx.finish_bind(unit, &tex(1), Ok::<(), u8>(())), Ok(0));
    let unit = ctx.reserve_unit(&all);
    assert_eq!(unit, 1);
    assert_eq!(ctx.finish_bind(unit, &tex(2), Err::<(), u8>(5)), Err(5));
    assert_eq!(table(&ctx), vec![(1, None), (0, Some(1))]);
    let unit = ctx.reserve_unit(&all);
    assert_eq!(unit, 1);
    assert_eq!(table(&ctx), vec![(0, Some(1))]);
    assert_eq!(ctx.finish_bind(unit, &tex(3), Ok::<(), u8>(())), Ok(1));
    assert_eq!(table(&ctx), vec![(0, Some(1)), (1, Some(3))]);
}

#[test]
fn single_unit_context_keeps_rebinding_unit_zero() {
    let mut ctx = EngineContext::with_texture_units(1);
    let all = live(&[1, 2]);
    assert_eq!(bind(&mut ctx, &tex(1), &all), (0, 1));
    assert_eq!(bind(&mut ctx, &tex(1), &all), (0, 0));
    assert_eq!(bind(&mut ctx, &tex(2), &all), (0, 1));
    assert_eq!(table(&ctx), vec![(0, Some(2))]);
}

#[test]
fn unit_indices_stay_unique_under_a_long_mixed_run() {
    let mut ctx = EngineContext::with_texture_units(4);
    let mut seed: u64 = 0x2545_f491_4f6c_dd1d;
    let mut next = || {
        seed ^= seed << 13;
        seed ^= seed >> 7;
        seed ^= seed << 17;
        seed
    };
    for _ in 0..2000 {
        let id = next() % 9;
        let mut alive = HashSet::new();
        alive.insert(id);
        for other in 0..9u64 {
            if next() % 3 != 0 {
                alive.insert(other);
            }
        }
        let fail = next() % 4 == 0;
        let r: Result<u32, ()> =
            ctx.prepare_cache_tex(&tex(id), &alive, |_| if fail { Err(()) } else { Ok(()) });
        if let Ok(unit) = r {
            assert_eq!(ctx.textures.back().map(|e| (e.0, e.1.target)), Some((unit, Some(id))));
        }
        let mut units: Vec<u32> = ctx.textures.iter().map(|e| e.0).collect();
        assert!(units.len() <= 4);
        units.sort();
        units.dedup();
        assert_eq!(units.len(), ctx.textures.len());
        assert!(units.iter().all(|u| (*u as usize) < ctx.textures.len()));
    }
}

#[test]
fn binding_a_texture_leaves_the_single_slots_alone() {
    let mut ctx = EngineContext::new();
    ctx.switch_tex = 3;
    bind(&mut ctx, &tex(1), &live(&[1]));
    assert_eq!(ctx.prog.target, None);
    assert_eq!(ctx.mesh_buffer.target, None);
    assert_eq!(ctx.switch_tex, 3);
    assert_eq!(ctx.max_texture_units, 8);
}

#[test]
fn begin_bind_names_a_resident_unit_and_moves_it_to_the_tail() {
    let mut ctx = EngineContext::with_texture_units(3);
    let all = live(&[1, 2]);
    bind(&mut ctx, &tex(1), &all);
    bind(&mut ctx, &tex(2), &all);
    assert_eq!(ctx.begin_bind(&tex(1), &all), TextureBind::Resident(0));
    assert_eq!(table(&ctx), vec![(1, Some(2)), (0, Some(1))]);
}

#[test]
fn begin_bind_reserves_a_unit_for_a_new_texture() {
    let mut ctx = EngineContext::with_texture_units(2);
    let all = live(&[1, 2, 3]);
    bind(&mut ctx, &tex(1), &all);
    assert_eq!(ctx.begin_bind(&tex(2), &all), TextureBind::Needed(1));
    assert_eq!(table(&ctx), vec![(0, Some(1))]);
    assert_eq!(ctx.finish_bind(1, &tex(2), Ok::<(), u8>(())), Ok(1));
    assert_eq!(ctx.begin_bind(&tex(3), &all), TextureBind::Needed(0));
    assert_eq!(table(&ctx), vec![(1, Some(2))]);
    assert_eq!(ctx.finish_bind(0, &tex(3), Err::<(), u8>(2)), Err(2));
    assert_eq!(table(&ctx), vec![(0, None), (1, Some(2))]);
}

#[test]
fn is_wf_holds_of_every_table_the_cache_makes() {
    let mut ctx = EngineContext::with_texture_units(3);
    assert!(ctx.is_wf());
    let all = live(&[1, 2, 3, 4]);
    for id in [1, 2, 3, 4, 2, 1] {
        bind(&mut ctx, &tex(id), &all);
        assert!(ctx.is_wf());
    }
    let r: Result<u32, u8> = ctx.prepare_cache_tex(&tex(9), &all, |_| Err(0));
    assert!(r.is_err());
    assert!(ctx.is_wf());
}

#[test]
fn is_wf_rejects_a_unit_that_occurs_twice() {
    let mut ctx = EngineContext::with_texture_units(4);
    ctx.textures.push_back((0, tex(1).downgrade()));
    ctx.textures.push_back((1, tex(2).downgrade()));
    assert!(ctx.is_wf());
    ctx.textures.push_back((1, WeakHandle::new()));
    assert!(!ctx.is_wf());
}

#[test]
fn is_wf_rejects_a_unit_beyond_the_length() {
    let mut ctx = EngineContext::with_texture_units(4);
    ctx.textures.push_back((1, tex(1).downgrade()));
    assert!(!ctx.is_wf());
}

#[test]
fn is_wf_rejects_more_entries_than_units() {
    let mut ctx = EngineContext::with_texture_units(1);
    ctx.textures.push_back((0, tex(1).downgrade()));
    assert!(ctx.is_wf());
    ctx.textures.push_back((1, tex(2).downgrade()));
    assert!(!ctx.is_wf());
}

#[test]
fn is_wf_rejects_a_context_without_units() {
    let mut ctx = EngineContext::new();
    ctx.max_texture_units = 0;
    assert!(!ctx.is_wf());
}
