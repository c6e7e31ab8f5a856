use bevy_turborand::{
    GlobalRng, GlobalSecureRng, RangeError, RngComponent, RngPlugin, SecureRngComponent, Tier,
};
use turborand::chacha_rng::ChaChaRng;
use turborand::rng::Rng;
use turborand::SeededCore;

fn scenario(seed: u64) -> (u32, u32) {
    let mut root = GlobalRng::with_seed(seed);
    let mut a = RngComponent::from_global(&mut root);
    let mut b = RngComponent::from_global(&mut root);
    let x = a.u32(1, 6).unwrap();
    let y = b.u32(1, 6).unwrap();
    (x, y)
}

#[test]
fn seeded_scenario_replays() {
    let first = scenario(42);
    for _ in 0..10 {
        assert_eq!(scenario(42), first);
    }
    assert!((1..=6).contains(&first.0));
    assert!((1..=6).contains(&first.1));
}

#[test]
fn same_seed_same_call_sequence() {
    let run = |seed: u64| {
        let mut root = GlobalRng::with_seed(seed);
        let mut out = Vec::new();
        let mut child = RngComponent::from_global(&mut root);
        let mut grandchild = child.fork();
        for i in 0..50u32 {
            out.push(root.u32(0, i).unwrap());
            out.push(child.u32(i, 1000).unwrap());
            out.push(grandchild.u32(5, 5 + i).unwrap());
        }
        let mut list: Vec<u32> = (0..20).collect();
        child.shuffle(&mut list);
        out.extend(list);
        out.extend(grandchild.sample_multiple(&[1u32, 2, 3, 4, 5, 6, 7], 3));
        out.push(root.sample(&[9u32, 8, 7, 6]).unwrap());
        out
    };
    assert_eq!(run(7), run(7));
    assert_ne!(run(7), run(8));
}

#[test]
fn seeded_root_matches_underlying_generator() {
    let mut root = GlobalRng::with_seed(42);
    assert!(root.get_mut() == &Rng::with_seed(42));
    assert!(GlobalRng::with_seed(1).get_mut() != GlobalRng::with_seed(2).get_mut());
}

#[test]
fn fork_divergence() {
    let mut root = GlobalRng::with_seed(42);
    let mut a = RngComponent::from_global(&mut root);
    let mut b = RngComponent::from_global(&mut root);
    assert!(a.get_mut() != b.get_mut());
    assert_ne!(a.u32(0, u32::MAX).unwrap(), b.u32(0, u32::MAX).unwrap());
}

#[test]
fn fork_changes_parent_and_child_differs_from_parent() {
    let mut root = GlobalRng::with_seed(3);
    let before = root.get_mut().clone();
    let mut child = RngComponent::from_global(&mut root);
    assert!(root.get_mut() != &before);
    assert!(child.get_mut() != root.get_mut());
    assert!(child.get_mut() != &before);
}

#[test]
fn component_fork_is_deterministic() {
    let mut parent_a = RngComponent::from_global(&mut GlobalRng::with_seed(11));
    let mut parent_b = RngComponent::from_global(&mut GlobalRng::with_seed(11));
    let mut c1 = RngComponent::from_component(&mut parent_a);
    let mut c2 = parent_b.fork();
    assert!(c1.get_mut() == c2.get_mut());
    assert_eq!(c1.u32(0, 100), c2.u32(0, 100));
}

#[test]
fn range_draws_stay_in_range() {
    let mut rng = RngComponent::from_global(&mut GlobalRng::with_seed(5));
    for (lo, hi) in [(0u32, 0u32), (1, 6), (10, 20), (0, u32::MAX), (u32::MAX - 3, u32::MAX)] {
        for _ in 0..10_000 {
            let v = rng.u32(lo, hi).unwrap();
            assert!(lo <= v && v <= hi);
        }
    }
}

#[test]
fn inverted_range_is_rejected() {
    let mut rng = GlobalRng::with_seed(5);
    let before = rng.get_mut().clone();
    assert_eq!(rng.u32(7, 3), Err(RangeError { lo: 7, hi: 3 }));
    assert!(rng.get_mut() == &before);
    let mut comp = RngComponent::from_global(&mut rng);
    assert_eq!(comp.u32(1, 0), Err(RangeError { lo: 1, hi: 0 }));
    let mut secure = GlobalSecureRng::with_seed([1u8; 40]);
    assert_eq!(secure.u32(9, 8), Err(RangeError { lo: 9, hi: 8 }));
    let mut sc = SecureRngComponent::from_global_secure(&mut secure);
    assert_eq!(sc.u32(2, 1), Err(RangeError { lo: 2, hi: 1 }));
}

#[test]
fn single_value_range() {
    let mut rng = GlobalRng::with_seed(0);
    assert_eq!(rng.u32(4, 4), Ok(4));
}

#[test]
fn sample_empty_and_single() {
    let mut rng = GlobalRng::with_seed(9);
    let empty: [u32; 0] = [];
    assert_eq!(rng.sample(&empty), None);
    assert_eq!(rng.sample(&[17u32]), Some(17));
}

#[test]
fn sample_picks_a_member() {
    let mut rng = RngComponent::from_global(&mut GlobalRng::with_seed(9));
    let list = [3u32, 1, 4, 1, 5, 9, 2, 6];
    let mut seen = std::collections::BTreeSet::new();
    for _ in 0..1000 {
        let v = rng.sample(&list).unwrap();
        assert!(list.contains(&v));
        seen.insert(v);
    }
    assert!(seen.len() > 1);
}

#[test]
fn sample_multiple_without_replacement() {
    let mut rng = RngComponent::from_global(&mut GlobalRng::with_seed(21));
    let list: Vec<u32> = (100..130).collect();
    for n in 0..=list.len() {
        let picked = rng.sample_multiple(&list, n);
        assert_eq!(picked.len(), n);
        let mut sorted = picked.clone();
        sorted.sort();
        sorted.dedup();
        assert_eq!(sorted.len(), n);
        assert!(picked.iter().all(|x| list.contains(x)));
    }
}

#[test]
fn sample_multiple_saturates() {
    let mut rng = GlobalRng::with_seed(21);
    let list = [5u32, 6, 7];
    let picked = rng.sample_multiple(&list, 10);
    let mut sorted = picked.clone();
    sorted.sort();
    assert_eq!(sorted, vec![5, 6, 7]);
    assert_eq!(rng.sample_multiple(&list, 3), vec![5, 6, 7]);
    let all = rng.sample_multiple(&list, usize::MAX);
    assert_eq!(all.len(), 3);
    let mut orders = std::collections::BTreeSet::new();
    let long: Vec<u32> = (0..12).collect();
    for _ in 0..5 {
        orders.insert(rng.sample_multiple(&long, 100));
    }
    assert!(orders.len() > 1);
    assert_eq!(rng.sample_multiple(&[] as &[u32], 2), Vec::<u32>::new());
}

#[test]
fn shuffle_is_a_permutation() {
    let mut rng = RngComponent::from_global(&mut GlobalRng::with_seed(33));
    let input = vec![4u32, 4, 1, 9, 9, 9, 0, 2, 7, 7];
    let mut list = input.clone();
    rng.shuffle(&mut list);
    assert_eq!(list.len(), input.len());
    let mut a = list.clone();
    let mut b = input.clone();
    a.sort();
    b.sort();
    assert_eq!(a, b);
    let mut moved = false;
    for _ in 0..10 {
        let mut l: Vec<u32> = (0..32).collect();
        rng.shuffle(&mut l);
        if l != (0..32).collect::<Vec<u32>>() {
            moved = true;
        }
    }
    assert!(moved);
}

#[test]
fn shuffle_empty_and_single() {
    let mut rng = GlobalRng::with_seed(1);
    let mut empty: Vec<u32> = vec![];
    rng.shuffle(&mut empty);
    assert!(empty.is_empty());
    let mut one = vec![8u32];
    rng.shuffle(&mut one);
    assert_eq!(one, vec![8]);
}

#[test]
fn tiers_and_seeding_rule() {
    let mut root = GlobalRng::with_seed(1);
    let mut secure = GlobalSecureRng::with_seed([0u8; 40]);
    assert_eq!(root.tier(), Tier::Standard);
    assert_eq!(secure.tier(), Tier::Cryptographic);
    let fast = RngComponent::from_global(&mut root);
    let fast_from_secure = RngComponent::from_global_secure(&mut secure);
    let mut sc = SecureRngComponent::from_global_secure(&mut secure);
    let fast_from_sc = RngComponent::from_secure_component(&mut sc);
    assert_eq!(fast.tier(), Tier::Standard);
    assert_eq!(fast_from_secure.tier(), Tier::Standard);
    assert_eq!(fast_from_sc.tier(), Tier::Standard);
    assert_eq!(sc.fork().tier(), Tier::Cryptographic);
    assert!(Tier::Cryptographic.may_seed(Tier::Standard));
    assert!(Tier::Cryptographic.may_seed(Tier::Cryptographic));
    assert!(Tier::Standard.may_seed(Tier::Standard));
    assert!(!Tier::Standard.may_seed(Tier::Cryptographic));
}

#[test]
fn secure_seeding_is_deterministic() {
    let seed = [7u8; 40];
    let mut a = GlobalSecureRng::with_seed(seed);
    let mut b = GlobalSecureRng::with_seed(seed);
    assert!(a.get_mut() == &ChaChaRng::with_seed(seed));
    let mut ca = SecureRngComponent::from_global_secure(&mut a);
    let mut cb = SecureRngComponent::from_global_secure(&mut b);
    assert!(ca.get_mut() == cb.get_mut());
    assert!(a.get_mut() != &ChaChaRng::with_seed(seed));
    let mut fa = RngComponent::from_secure_component(&mut ca);
    let mut fb = RngComponent::from_secure_component(&mut cb);
    assert_eq!(fa.u32(0, 1000), fb.u32(0, 1000));
    assert_eq!(a.u32(0, 9), b.u32(0, 9));
    let mut g1 = SecureRngComponent::from_secure_component(&mut ca);
    let mut g2 = cb.fork();
    assert_eq!(g1.u32(1, 6), g2.u32(1, 6));
    let mut f1 = RngComponent::from_global_secure(&mut a);
    let mut f2 = RngComponent::from_global_secure(&mut b);
    assert!(f1.get_mut() == f2.get_mut());
}

#[test]
fn secure_forks_diverge() {
    let mut root = GlobalSecureRng::with_seed([3u8; 40]);
    let mut a = SecureRngComponent::from_global_secure(&mut root);
    let mut b = SecureRngComponent::from_global_secure(&mut root);
    assert!(a.get_mut() != b.get_mut());
}

#[test]
fn plugin_seeds_roots() {
    let plugin = RngPlugin::new().with_rng_seed(42).with_secure_seed([5u8; 40]);
    assert_eq!(plugin.rng_seed(), Some(42));
    assert_eq!(plugin.secure_seed(), Some([5u8; 40]));
    let (mut rng, mut secure) = plugin.roots();
    assert!(rng.get_mut() == GlobalRng::with_seed(42).get_mut());
    assert!(secure.get_mut() == GlobalSecureRng::with_seed([5u8; 40]).get_mut());
}

#[test]
fn plugin_default_has_no_seeds() {
    let plugin = RngPlugin::default();
    assert_eq!(plugin.rng_seed(), None);
    assert_eq!(plugin.secure_seed(), None);
    let only_rng = RngPlugin::new().with_rng_seed(1);
    assert_eq!(only_rng.secure_seed(), None);
    let (mut a, _) = plugin.roots();
    assert!(a.u32(1, 6).is_ok());
}

#[test]
fn randomised_roots_work() {
    let mut a = GlobalRng::new();
    let mut d = GlobalRng::default();
    let mut s = GlobalSecureRng::new();
    let mut sd = GlobalSecureRng::default();
    assert!(a.u32(1, 6).is_ok());
    assert!(d.u32(1, 6).is_ok());
    assert!(s.u32(1, 6).is_ok());
    assert!(sd.u32(1, 6).is_ok());
}


#[test]
fn saved_generators_resume() {
    let mut root = GlobalRng::with_seed(77);
    let mut comp = RngComponent::from_global(&mut root);
    let mut twin = RngComponent::from_source(comp.get_mut().clone());
    assert_eq!(comp.u32(0, 1_000_000), twin.u32(0, 1_000_000));
    let saved = root.into_source();
    let mut resumed = GlobalRng::from_source(saved.clone());
    assert!(resumed.get_mut() == &saved);
    let mut again = GlobalRng::from_source(saved);
    assert_eq!(resumed.u32(0, 99), again.u32(0, 99));
    let mut secure = GlobalSecureRng::with_seed([2u8; 40]);
    let mut sc = SecureRngComponent::from_global_secure(&mut secure);
    let raw = sc.into_source();
    let mut sc2 = SecureRngComponent::from_source(raw.clone());
    assert!(sc2.get_mut() == &raw);
    let s_raw = secure.into_source();
    assert!(GlobalSecureRng::from_source(s_raw.clone()).get_mut() == &s_raw);
}

#[test]
fn secure_sampling_and_shuffling() {
    let mut root = GlobalSecureRng::with_seed([9u8; 40]);
    let mut comp = SecureRngComponent::from_global_secure(&mut root);
    let list: Vec<u32> = (0..25).collect();
    let empty: [u32; 0] = [];
    assert_eq!(root.sample(&empty), None);
    assert_eq!(comp.sample(&[4u32]), Some(4));
    let v = comp.sample(&list).unwrap();
    assert!(list.contains(&v));
    let picked = root.sample_multiple(&list, 10);
    let mut sorted = picked.clone();
    sorted.sort();
    sorted.dedup();
    assert_eq!(sorted.len(), 10);
    assert!(picked.iter().all(|x| list.contains(x)));
    let mut both = comp.sample_multiple(&[1u32, 2], usize::MAX);
    both.sort();
    assert_eq!(both, vec![1, 2]);
    let mut shuffled = list.clone();
    comp.shuffle(&mut shuffled);
    let mut back = shuffled.clone();
    back.sort();
    assert_eq!(back, list);
    let mut other = list.clone();
    root.shuffle(&mut other);
    assert_eq!(other.len(), list.len());
    let mut twin_root = GlobalSecureRng::with_seed([9u8; 40]);
    let mut twin = SecureRngComponent::from_global_secure(&mut twin_root);
    let _ = twin.sample(&[4u32]);
    assert_eq!(twin.sample(&list), Some(v));
}
