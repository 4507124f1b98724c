use novus_writer::collaboration::byte_sum_fits;
use novus_writer::collaboration::{generate_user_color, CollaborationSession, ConnectedUser};

const PALETTE: [&str; 12] = [
    "#FF6B6B", "#4ECDC4", "#45B7D1", "#96CEB4", "#FFEAA7", "#DDA0DD", "#98D8C8", "#F7DC6F",
    "#BB8FCE", "#85C1E9", "#F8B500", "#00CED1",
];

#[test]
fn test_color_generation_consistency() {
    let color1 = generate_user_color("user123");
    let color2 = generate_user_color("user123");
    assert_eq!(color1, color2);
}

#[test]
fn test_different_users_different_colors() {
    let color1 = generate_user_color("user1");
    let color2 = generate_user_color("user2");
    // Not guaranteed to be different, but likely with good distribution
    println!("User1: {}, User2: {}", color1, color2);
}

#[test]
fn color_is_palette_entry_at_byte_sum() {
    for id in ["", "a", "user1", "user2", "user123", "ü"] {
        let sum: u32 = id.bytes().map(|b| b as u32).sum();
        assert_eq!(generate_user_color(id), PALETTE[(sum % 12) as usize]);
    }
    assert_eq!(generate_user_color(""), "#FF6B6B");
    // 'a' is 97, and 97 % 12 == 1
    assert_eq!(generate_user_color("a"), "#4ECDC4");
}

#[test]
fn session_and_user() {
    let s = CollaborationSession::open("doc1");
    assert!(s.is_active);
    assert_eq!(s.document_id, "doc1");
    assert_eq!(s.created_at, s.updated_at);
    let u = ConnectedUser::joining(&s.id, "a", "Alice");
    assert_eq!(u.color, "#4ECDC4");
    assert_eq!(u.username, "Alice");
    assert_eq!(u.session_id, s.id);
    assert!(u.cursor_position.is_none());
}

#[test]
fn byte_sum_fits_for_ordinary_ids() {
    assert!(byte_sum_fits(""));
    assert!(byte_sum_fits("user123"));
    assert!(byte_sum_fits(&"z".repeat(10_000)));
}
