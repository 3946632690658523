use pathtracer::decimal::Decimal;
use pathtracer::material::Dielectric;
use pathtracer::material::DiffuseLight;
use pathtracer::material::Lambertian;
use pathtracer::material::Material;
use pathtracer::nearest::nearest;
use pathtracer::interval::key_of_bits;
use pathtracer::interval::Distance;
use pathtracer::tracer::classify;
use pathtracer::tracer::exhausted;
use pathtracer::tracer::resume;
use pathtracer::tracer::Encounter;
use pathtracer::tracer::Ending;
use pathtracer::tracer::Step;
use pathtracer::triple::Triple;

const ALL: [Encounter; 3] = [Encounter::Miss, Encounter::Absorbed, Encounter::Scattered];

fn follow(max_depth: u32, encounters: &[Encounter]) -> (usize, Ending) {
    let mut depth = max_depth;
    let mut cast = 0;
    loop {
        if exhausted(depth) {
            return (cast, Ending::Exhausted);
        }
        let met = encounters[cast];
        cast += 1;
        match resume(depth, met) {
            Step::Finish(ending) => return (cast, ending),
            Step::Bounce(rest) => depth = rest,
        }
    }
}

#[test]
fn no_depth_is_black_whatever_the_scene() {
    assert!(exhausted(0));
    for e in ALL {
        assert_eq!(resume(0, e), Step::Finish(Ending::Exhausted));
    }
    assert_eq!(follow(0, &[]), (0, Ending::Exhausted));
}

#[test]
fn a_step_follows_the_encounter() {
    assert!(!exhausted(1));
    assert!(!exhausted(u32::MAX));
    assert_eq!(resume(1, Encounter::Miss), Step::Finish(Ending::Escaped));
    assert_eq!(resume(1, Encounter::Absorbed), Step::Finish(Ending::Absorbed));
    assert_eq!(resume(1, Encounter::Scattered), Step::Bounce(0));
    assert_eq!(resume(50, Encounter::Scattered), Step::Bounce(49));
    assert_eq!(resume(u32::MAX, Encounter::Scattered), Step::Bounce(u32::MAX - 1));
    assert_eq!(resume(50, Encounter::Miss), Step::Finish(Ending::Escaped));
}

#[test]
fn a_path_casts_at_most_as_many_rays_as_its_depth() {
    let always = [Encounter::Scattered; 64];
    for depth in 0u32..50 {
        assert_eq!(follow(depth, &always), (depth as usize, Ending::Exhausted));
    }
    let mut lit = [Encounter::Scattered; 8];
    lit[3] = Encounter::Absorbed;
    assert_eq!(follow(50, &lit), (4, Ending::Absorbed));
    assert_eq!(follow(4, &lit), (4, Ending::Absorbed));
    assert_eq!(follow(3, &lit), (3, Ending::Exhausted));
    lit[1] = Encounter::Miss;
    assert_eq!(follow(50, &lit), (2, Ending::Escaped));
    assert_eq!(follow(1, &lit), (1, Ending::Exhausted));
}

#[test]
fn one_sample_of_depth_one_sees_a_surface_or_the_sky() {
    // With depth one a ray that scatters has no depth left for the next ray.
    assert_eq!(follow(1, &[Encounter::Scattered]), (1, Ending::Exhausted));
    assert_eq!(follow(1, &[Encounter::Miss]), (1, Ending::Escaped));
}

#[test]
fn encounters_are_classified_by_material() {
    let c = Triple::ints(1, 1, 1);
    let matte = Material::Lambertian(Lambertian::new(c));
    let glass = Material::Dielectric(Dielectric::new(Decimal::from_units(15_000)));
    let light = Material::DiffuseLight(DiffuseLight::new(c));
    assert_eq!(classify(None), Encounter::Miss);
    assert_eq!(classify(Some(&matte)), Encounter::Scattered);
    assert_eq!(classify(Some(&glass)), Encounter::Scattered);
    assert_eq!(classify(Some(&light)), Encounter::Absorbed);
}

#[test]
fn nearest_of_nothing_is_nothing() {
    assert_eq!(nearest(&vec![]), None);
    assert_eq!(nearest(&vec![None]), None);
    assert_eq!(nearest(&vec![None, None, None, None, None]), None);
}

#[test]
fn nearest_is_the_smallest_distance() {
    let c = vec![Some(Distance::At(40)), None, Some(Distance::At(7)), Some(Distance::At(9))];
    assert_eq!(nearest(&c), Some(2));
    let c = vec![None, Some(Distance::At(-3)), Some(Distance::At(i64::MIN)), Some(Distance::At(i64::MAX))];
    assert_eq!(nearest(&c), Some(2));
    assert_eq!(nearest(&vec![Some(Distance::At(i64::MAX))]), Some(0));
}

#[test]
fn among_equal_distances_the_first_wins() {
    let c = vec![None, Some(Distance::At(5)), Some(Distance::At(5)), Some(Distance::At(5))];
    assert_eq!(nearest(&c), Some(1));
    let c = vec![Some(Distance::At(9)), Some(Distance::At(5)), Some(Distance::At(9)), Some(Distance::At(5))];
    assert_eq!(nearest(&c), Some(1));
}

#[test]
fn an_unordered_distance_compares_as_not_less() {
    // A scan that holds an unordered hit keeps it; one that meets it later passes over it.
    let c = vec![Some(Distance::Unordered), Some(Distance::At(1)), Some(Distance::At(0))];
    assert_eq!(nearest(&c), Some(0));
    let c = vec![Some(Distance::At(4)), Some(Distance::Unordered), Some(Distance::At(3))];
    assert_eq!(nearest(&c), Some(2));
    let c = vec![None, Some(Distance::At(4)), Some(Distance::Unordered)];
    assert_eq!(nearest(&c), Some(1));
    assert_eq!(nearest(&vec![None, Some(Distance::Unordered)]), Some(1));
}

#[test]
fn nearest_agrees_with_min_by_on_floats() {
    fn key(t: f64) -> Distance {
        if t.is_nan() {
            return Distance::Unordered;
        }
        Distance::At(key_of_bits((t + 0.0).to_bits()))
    }
    let lists: Vec<Vec<Option<f64>>> = vec![
        vec![Some(4.0), None, Some(0.5), Some(0.5), Some(6.0)],
        vec![None, Some(-1.0), Some(f64::INFINITY), Some(-7.25), Some(0.0)],
        vec![Some(0.0), Some(-0.0), Some(1e-300)],
        vec![Some(f64::NAN), Some(1.0), Some(0.5)],
        vec![Some(2.0), Some(f64::NAN), Some(1.0)],
        vec![Some(f64::NEG_INFINITY), Some(f64::INFINITY)],
        vec![None, None],
    ];
    for list in lists.iter() {
        let expected = list
            .iter()
            .enumerate()
            .filter_map(|(i, t)| t.map(|t| (i, t)))
            .min_by(|a, b| a.1.partial_cmp(&b.1).unwrap_or(std::cmp::Ordering::Equal))
            .map(|(i, _)| i);
        let candidates: Vec<Option<Distance>> = list.iter().map(|t| t.map(key)).collect();
        assert_eq!(nearest(&candidates), expected);
    }
}
