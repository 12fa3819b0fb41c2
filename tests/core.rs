use raytracer::path::{trace_events, Bounce, PathState, Termination};
use raytracer::raster::scene_row;
use raytracer::root::{choose_root, Root};
use raytracer::scan::{scan_hits, NearestHit};
use raytracer::scatter::{MaterialKind, Scatter, ScatterFacts};

fn facts(near_zero: bool, leaves: bool, tir: bool, fresnel: bool) -> ScatterFacts {
    ScatterFacts {
        sample_near_zero: near_zero,
        leaves_surface: leaves,
        total_internal_reflection: tir,
        fresnel_reflects: fresnel,
    }
}

#[test]
fn empty_scene_escapes_without_bounces() {
    let s = trace_events(50, &vec![Bounce::Escaped]);
    assert_eq!(s.ended, Some(Termination::Escaped));
    assert_eq!(s.used, 0);
    assert!(s.shows_background());
}

#[test]
fn zero_budget_is_exhausted_at_once() {
    let s = PathState::new(0);
    assert!(!s.is_tracing());
    assert_eq!(s.ended, Some(Termination::Exhausted));
    assert!(!s.shows_background());
    let t = trace_events(0, &vec![Bounce::Escaped]);
    assert_eq!(t.used, 0);
    assert_eq!(t.ended, Some(Termination::Exhausted));
}

#[test]
fn absorbed_path_is_black() {
    let s = trace_events(5, &vec![Bounce::Scattered, Bounce::Absorbed, Bounce::Escaped]);
    assert_eq!(s.ended, Some(Termination::Absorbed));
    assert_eq!(s.used, 1);
    assert!(!s.shows_background());
}

#[test]
fn scattering_runs_out_of_bounces() {
    let events = vec![Bounce::Scattered; 4];
    let s = trace_events(3, &events);
    assert_eq!(s.ended, Some(Termination::Exhausted));
    assert_eq!(s.used, 3);
    assert_eq!(s.remaining_bounces(), 0);
    assert!(!s.shows_background());
}

#[test]
fn escape_after_bounces_shows_background() {
    let s = trace_events(3, &vec![Bounce::Scattered, Bounce::Scattered, Bounce::Escaped]);
    assert_eq!(s.ended, Some(Termination::Escaped));
    assert_eq!(s.used, 2);
    assert!(s.shows_background());
}

#[test]
fn record_steps_one_bounce() {
    let mut s = PathState::new(2);
    assert!(s.is_tracing());
    assert_eq!(s.remaining_bounces(), 2);
    s.record(Bounce::Scattered);
    assert!(s.is_tracing());
    assert_eq!(s.used, 1);
    assert_eq!(s.remaining_bounces(), 1);
    s.record(Bounce::Scattered);
    assert!(!s.is_tracing());
    assert_eq!(s.ended, Some(Termination::Exhausted));
}

#[test]
fn unanswered_path_keeps_tracing() {
    let s = trace_events(3, &vec![]);
    assert!(s.is_tracing());
    assert_eq!(s.used, 0);
    assert_eq!(s.ended, None);
}

#[test]
fn negative_discriminant_misses() {
    assert_eq!(choose_root(true, true, true), None);
}

#[test]
fn near_root_preferred() {
    assert_eq!(choose_root(false, true, true), Some(Root::Near));
    assert_eq!(choose_root(false, true, false), Some(Root::Near));
}

#[test]
fn far_root_when_near_outside() {
    assert_eq!(choose_root(false, false, true), Some(Root::Far));
}

#[test]
fn origin_past_sphere_misses() {
    assert_eq!(choose_root(false, false, false), None);
}

#[test]
fn lambertian_never_absorbs() {
    for &nz in &[false, true] {
        for &leaves in &[false, true] {
            let r = MaterialKind::Lambertian.scatter(&facts(nz, leaves, true, true));
            assert_ne!(r, Scatter::Absorbed);
        }
    }
    assert_eq!(MaterialKind::Lambertian.scatter(&facts(false, false, false, false)), Scatter::Diffuse);
    assert_eq!(MaterialKind::Lambertian.scatter(&facts(true, false, false, false)), Scatter::AlongNormal);
}

#[test]
fn metal_absorbs_when_reflection_enters_surface() {
    assert_eq!(MaterialKind::Metal.scatter(&facts(false, false, false, false)), Scatter::Absorbed);
    assert_eq!(MaterialKind::Metal.scatter(&facts(true, true, false, false)), Scatter::Reflect);
}

#[test]
fn dielectric_reflects_or_refracts() {
    assert_eq!(MaterialKind::Dielectric.scatter(&facts(false, false, true, false)), Scatter::Reflect);
    assert_eq!(MaterialKind::Dielectric.scatter(&facts(false, false, false, true)), Scatter::Reflect);
    assert_eq!(MaterialKind::Dielectric.scatter(&facts(true, false, false, false)), Scatter::Refract);
}

#[test]
fn attenuation_source() {
    assert!(MaterialKind::Lambertian.uses_albedo());
    assert!(MaterialKind::Metal.uses_albedo());
    assert!(!MaterialKind::Dielectric.uses_albedo());
}

#[test]
fn rows_are_flipped() {
    assert_eq!(scene_row(720, 0), 719);
    assert_eq!(scene_row(720, 719), 0);
    assert_eq!(scene_row(1, 0), 0);
    assert_eq!(scene_row(720, scene_row(720, 100)), 100);
}

#[test]
fn last_hit_stands() {
    assert_eq!(scan_hits(&vec![]), None);
    assert_eq!(scan_hits(&vec![false, false]), None);
    assert_eq!(scan_hits(&vec![true, false, true, false]), Some(2));
    assert_eq!(scan_hits(&vec![true, true]), Some(1));
}

#[test]
fn nearest_hit_records() {
    let mut scan = NearestHit::new();
    assert!(scan.record(true));
    assert!(!scan.record(false));
    assert_eq!(scan.best, Some(0));
    assert_eq!(scan.tested, 2);
}
