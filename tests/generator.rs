use uuid_generator::{generate_uuid_with_input, generate_uuid_without_input, uuid};

const ASCII: &str = "0123456789abcdefghijklmnopqrstuvwxyzABCDEFGHIJKLMNOPQRSTUVWXYZ";

fn assert_canonical(id: &str) {
    assert_eq!(id.len(), 36, "Uuid length should be 36");
    for (i, c) in id.chars().enumerate() {
        if i == 8 || i == 13 || i == 18 || i == 23 {
            assert_eq!(c, '-', "position {} of {}", i, id);
        } else {
            assert!(c.is_ascii_digit() || ('a'..='f').contains(&c), "position {} of {}", i, id);
        }
    }
}

fn assert_variant(id: &str) {
    let c = id.chars().nth(19).unwrap();
    assert!(matches!(c, '8' | '9' | 'a' | 'b'), "variant digit of {}", id);
}

#[test]
fn generate_2_correct_uuids_with_same_input() {
    let random_string: String = ASCII.chars().rev().take(36).collect();

    let uuid = generate_uuid_with_input(random_string.clone());
    let uuid2 = generate_uuid_with_input(random_string);

    assert!(uuid.is_ascii());
    assert_eq!(uuid, uuid2, "Both uuids must be the same");
    assert_eq!(uuid.len(), 36, "Uuid length should be 36");
    assert!(uuid.contains('-'), "Uuid must contain '-'");
    assert_eq!(
        uuid.find('-'),
        Some(8),
        "Uuid must have the first '-' in the position 8 of the string"
    );
    assert_eq!(
        uuid.rfind('-'),
        Some(23),
        "Uuid must have the last '-' in the position 23 of the string"
    );
}

#[test]
fn generate_correct_uuid_without_input() {
    let uuid = generate_uuid_without_input();

    assert!(uuid.is_ascii());
    assert_eq!(uuid.len(), 36, "Uuid length should be 36");
    assert!(uuid.contains('-'), "Uuid must contain '-'");
    assert_eq!(
        uuid.find('-'),
        Some(8),
        "Uuid must have the first '-' in the position 8 of the string"
    );
    assert_eq!(
        uuid.rfind('-'),
        Some(23),
        "Uuid must have the last '-' in the position 8 of the string"
    );
}

#[test]
fn generate_correct_uuid_with_input() {
    for n in 0..100usize {
        let s: String = ASCII.chars().cycle().skip(n).take(36).collect();
        let id = generate_uuid_with_input(s);
        assert_canonical(&id);
    }
}

#[test]
fn known_input_gives_known_uuid() {
    let id = generate_uuid_with_input("1cbf5655eeb58bf905f4b1958ad0b71a2855".to_string());
    assert_eq!(id, "b93161bf-fb22-5990-b0ef-bcd0a1bc2cd1");
    let again = generate_uuid_with_input("1cbf5655eeb58bf905f4b1958ad0b71a2855".to_string());
    assert_eq!(id, again);
}

#[test]
fn empty_input_gives_known_uuid() {
    let id = generate_uuid_with_input(String::new());
    assert_eq!(id, "c2374033-daf0-5722-a5e6-b0f0d96af863");
    assert_canonical(&id);
}

#[test]
fn single_letters_give_known_uuids() {
    assert_eq!(generate_uuid_with_input("a".to_string()), "582ec365-aa31-5575-bf14-a46ea0e194e7");
    assert_eq!(generate_uuid_with_input("b".to_string()), "37c5d57d-752f-53d0-9961-b3675ecd0b88");
}

#[test]
fn different_inputs_give_different_uuids() {
    let a = generate_uuid_with_input("alpha".to_string());
    let b = generate_uuid_with_input("beta".to_string());
    let c = generate_uuid_with_input("alphb".to_string());
    assert_ne!(a, b);
    assert_ne!(a, c);
    assert_ne!(b, c);
}

#[test]
fn non_ascii_input_is_hashed_as_utf8() {
    let id = generate_uuid_with_input("héllo wörld ✓".to_string());
    assert_eq!(id, "2ff21f2a-508a-5e23-8971-ceb5a14d3b81");
    assert_ne!(id, generate_uuid_with_input("hello world".to_string()));
}

#[test]
fn version_and_variant_digits() {
    let v5 = generate_uuid_with_input("1cbf5655eeb58bf905f4b1958ad0b71a2855".to_string());
    assert_eq!(v5.chars().nth(14), Some('5'));
    assert_variant(&v5);
    for _ in 0..100 {
        let v4 = generate_uuid_without_input();
        assert_canonical(&v4);
        assert_eq!(v4.chars().nth(14), Some('4'));
        assert_variant(&v4);
    }
}

#[test]
fn successive_random_uuids_differ() {
    for _ in 0..1000 {
        let a = uuid(None);
        let b = uuid(None);
        assert_canonical(&a);
        assert_canonical(&b);
        assert_ne!(a, b);
    }
}

#[test]
fn dispatch_follows_the_input() {
    let with = uuid(Some("1cbf5655eeb58bf905f4b1958ad0b71a2855".to_string()));
    assert_eq!(with, "b93161bf-fb22-5990-b0ef-bcd0a1bc2cd1");
    assert_eq!(uuid(Some(String::new())), "c2374033-daf0-5722-a5e6-b0f0d96af863");
    let without = uuid(None);
    assert_canonical(&without);
    assert_eq!(without.chars().nth(14), Some('4'));
}
