use zet::note::{inbox_dir, note_path, template_block};
use zet::stamp::Timestamp;

#[test]
fn the_inbox_lies_under_the_root() {
    assert_eq!(inbox_dir("/home/me/notes"), "/home/me/notes/0_inbox");
    assert_eq!(inbox_dir(""), "/0_inbox");
    assert_eq!(inbox_dir("notes/"), "notes//0_inbox");
}

#[test]
fn a_note_is_a_markdown_file_in_its_folder() {
    assert_eq!(note_path("/tmp/x", "test-note"), "/tmp/x/test-note.md");
    assert_eq!(note_path(&inbox_dir("/z"), "a"), "/z/0_inbox/a.md");
    assert_eq!(note_path("d", ""), "d/.md");
    assert_eq!(note_path("d", "../up"), "d/../up.md");
}

#[test]
fn the_block_is_the_template_with_the_stamp() {
    let stamp = Timestamp::new(2024, 3, 9, 7, 5).unwrap();
    assert_eq!(template_block(&stamp), "# \n\n\n\nLinks:\n\n202403090705\n");
}

#[test]
fn the_block_has_the_label_and_a_numeric_token() {
    let stamp = Timestamp::new(1987, 11, 30, 0, 1).unwrap();
    let block = template_block(&stamp);
    assert!(block.contains("Links:"));
    let lines: Vec<&str> = block.lines().collect();
    assert_eq!(lines, vec!["# ", "", "", "", "Links:", "", "198711300001"]);
    let token: &str = lines[6];
    assert_eq!(token.len(), 12);
    assert!(token.chars().all(|c| c.is_ascii_digit()));
}

#[test]
fn a_second_block_follows_the_first() {
    let first = template_block(&Timestamp::new(2024, 1, 1, 10, 0).unwrap());
    let second = template_block(&Timestamp::new(2024, 1, 1, 10, 1).unwrap());
    let mut content = String::from("what was there before\n");
    let before = content.clone();
    content.push_str(&first);
    let once = content.clone();
    content.push_str(&second);
    assert!(before.len() < once.len() && once.len() < content.len());
    assert!(once.starts_with(&before));
    assert!(content.starts_with(&once));
    assert_eq!(content.matches("Links:").count(), 2);
    assert!(content.ends_with("202401011001\n"));
}
