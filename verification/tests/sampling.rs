use fake_person::date::get_max_day_for_month;
use fake_person::entity::Entity;
use fake_person::person::build_email;
use fake_person::person::build_full_name;
use fake_person::sample::build_birth_date;
use fake_person::sample::sample_person;
use rand::rngs::StdRng;
use rand::SeedableRng;

fn names() -> Vec<String> {
    vec!["John".to_string(), "Jane".to_string(), "INGRID".to_string()]
}

fn surnames() -> Vec<String> {
    vec!["Doe".to_string(), "McAllister".to_string()]
}

fn companies() -> Vec<(String, String)> {
    vec![
        ("Acme".to_string(), "acme.com".to_string()),
        ("Globex".to_string(), "Globex.Example".to_string()),
        ("Initech".to_string(), "initech.io".to_string()),
    ]
}

#[test]
fn full_name_single_space_unmodified() {
    assert_eq!(build_full_name("John", "Doe"), "John Doe");
    assert_eq!(build_full_name("INGRID", "McAllister"), "INGRID McAllister");
}

#[test]
fn email_is_lowercased_concatenation() {
    assert_eq!(build_email("John", "Doe", "acme.com"), "jdoe@acme.com");
    assert_eq!(build_email("JOHN", "DOE", "ACME.COM"), "jdoe@acme.com");
    assert_eq!(build_email("Ingrid", "McAllister", "Globex.Example"), "imcallister@globex.example");
}

#[test]
fn max_day_per_month() {
    let expected: [u32; 12] = [31, 28, 31, 30, 31, 30, 31, 31, 30, 31, 30, 31];
    for month in 1u32..=12 {
        assert_eq!(get_max_day_for_month(month), expected[(month - 1) as usize]);
    }
    assert_eq!(get_max_day_for_month(0), 28);
    assert_eq!(get_max_day_for_month(13), 28);
}

#[test]
fn birth_date_within_bounds() {
    for seed in 0u64..200 {
        let mut rng = StdRng::seed_from_u64(seed);
        let d = build_birth_date(&mut rng);
        assert!((1977..=1997).contains(&d.year));
        assert!((1..=12).contains(&d.month));
        assert!(d.day >= 1);
        assert!(d.day <= get_max_day_for_month(d.month));
    }
}

#[test]
fn february_day_never_exceeds_28() {
    let mut seen_february = false;
    for seed in 0u64..400 {
        let mut rng = StdRng::seed_from_u64(seed);
        let d = build_birth_date(&mut rng);
        if d.month == 2 {
            seen_february = true;
            assert!(d.day <= 28);
        }
    }
    assert!(seen_february);
}

#[test]
fn sampled_company_is_from_list() {
    let (names, surnames, companies) = (names(), surnames(), companies());
    let mut rng = StdRng::seed_from_u64(7);
    for _ in 0..60 {
        let p = sample_person(&mut rng, &names, &surnames, &companies);
        assert!(companies.iter().any(|(company, _)| *company == p.company));
    }
}

#[test]
fn sampled_fields_are_consistent() {
    let (names, surnames, companies) = (names(), surnames(), companies());
    let mut rng = StdRng::seed_from_u64(11);
    for _ in 0..60 {
        let p = sample_person(&mut rng, &names, &surnames, &companies);
        let mut matched = false;
        for first in &names {
            for surname in &surnames {
                for (company, domain) in &companies {
                    if p.name == format!("{} {}", first, surname) && p.company == *company {
                        assert_eq!(p.email, build_email(first, surname, domain));
                        matched = true;
                    }
                }
            }
        }
        assert!(matched);
    }
}

#[test]
fn single_entry_lists_pin_every_field() {
    let names = vec!["John".to_string()];
    let surnames = vec!["Doe".to_string()];
    let companies = vec![("Acme".to_string(), "acme.com".to_string())];
    for seed in 0u64..30 {
        let mut rng = StdRng::seed_from_u64(seed);
        let p = sample_person(&mut rng, &names, &surnames, &companies);
        assert_eq!(p.name, "John Doe");
        assert_eq!(p.email, "jdoe@acme.com");
        assert_eq!(p.company, "Acme");
        assert!((1977..=1997).contains(&p.birth_date.year));
        assert!((1..=12).contains(&p.birth_date.month));
        assert!(p.birth_date.day >= 1);
        assert!(p.birth_date.day <= get_max_day_for_month(p.birth_date.month));
    }
}

#[test]
fn same_seed_same_person() {
    let (names, surnames, companies) = (names(), surnames(), companies());
    for seed in 0u64..20 {
        let mut rng_a = StdRng::seed_from_u64(seed);
        let mut rng_b = StdRng::seed_from_u64(seed);
        let a = sample_person(&mut rng_a, &names, &surnames, &companies);
        let b = sample_person(&mut rng_b, &names, &surnames, &companies);
        assert_eq!(a.name, b.name);
        assert_eq!(a.email, b.email);
        assert_eq!(a.company, b.company);
        assert_eq!(a.birth_date, b.birth_date);
    }
}

#[test]
fn entity_keeps_id_and_payload() {
    let mut rng = StdRng::seed_from_u64(3);
    let p = sample_person(&mut rng, &names(), &surnames(), &companies());
    let expected_name = p.name.clone();
    let entity = Entity::new(99, p);
    assert_eq!(entity.id, 99);
    assert_eq!(entity.data.name, expected_name);
}
