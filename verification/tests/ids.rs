use game_of_estimates::ids::{decode_room_id, room_id_of};
use game_of_estimates::player::Player;

#[test]
fn room_id_is_the_url_safe_base64_of_the_bytes() {
    assert_eq!(room_id_of(&[0u8; 16]), "AAAAAAAAAAAAAAAAAAAAAA");
    let bytes: [u8; 16] = [0, 1, 2, 3, 4, 5, 6, 7, 8, 9, 10, 11, 12, 13, 14, 15];
    assert_eq!(room_id_of(&bytes), "AAECAwQFBgcICQoLDA0ODw");
    assert_eq!(room_id_of(&[0xffu8; 16]), "_____________________w");
    assert_eq!(room_id_of(&[0xfbu8; 16]), "-_v7-_v7-_v7-_v7-_v7-w");
}

#[test]
fn room_id_is_read_back() {
    let bytes: [u8; 16] = [0, 1, 2, 3, 4, 5, 6, 7, 8, 9, 10, 11, 12, 13, 14, 15];
    assert_eq!(
        decode_room_id("AAECAwQFBgcICQoLDA0ODw"),
        Some(bytes.to_vec())
    );
    assert_eq!(decode_room_id(&room_id_of(&[7u8; 16])), Some(vec![7u8; 16]));
}

#[test]
fn room_id_of_another_size_or_alphabet_is_refused() {
    assert_eq!(decode_room_id(""), None);
    assert_eq!(decode_room_id("AAEC"), None);
    assert_eq!(decode_room_id("AAECAwQFBgcICQoLDA0ODw=="), None);
    assert_eq!(decode_room_id("AAECAwQFBgcICQoLDA0OD+"), None);
    assert_eq!(decode_room_id("AAECAwQFBgcICQoLDA0ODwAA"), None);
    assert_eq!(decode_room_id("not a room id"), None);
}

#[test]
fn player_ids_are_sixteen_letters_and_digits() {
    let a = Player::gen_id();
    let b = Player::gen_id();
    assert_eq!(a.chars().count(), 16);
    assert!(a.chars().all(|c| c.is_ascii_alphanumeric()));
    assert_ne!(a, b);
    let player = Player::new();
    assert_eq!(player.id().len(), 16);
}
