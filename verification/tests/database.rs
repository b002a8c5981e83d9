use neo_api_rs::database::{insert_chunks, insert_statement, like_pattern, INSERT_CHUNK};

#[test]
fn like_pattern_surrounds_each_char() {
    assert_eq!(like_pattern(""), "%");
    assert_eq!(like_pattern("ab"), "%a%b%");
    assert_eq!(like_pattern("é/"), "%é%/%");
}

#[test]
fn insert_statement_placeholders() {
    assert_eq!(
        insert_statement(0),
        "INSERT INTO all_lines (icon, hl_group, path_prefix, path_suffix, line_nr) VALUES"
    );
    assert_eq!(
        insert_statement(2),
        "INSERT INTO all_lines (icon, hl_group, path_prefix, path_suffix, line_nr) VALUES(?, ?, ?, ?, ?), (?, ?, ?, ?, ?)"
    );
}

#[test]
fn insert_chunks_cover_everything() {
    assert_eq!(insert_chunks(0), vec![]);
    assert_eq!(insert_chunks(5), vec![(0, 5)]);
    assert_eq!(insert_chunks(INSERT_CHUNK), vec![(0, INSERT_CHUNK)]);
    assert_eq!(
        insert_chunks(2 * INSERT_CHUNK + 1),
        vec![(0, INSERT_CHUNK), (INSERT_CHUNK, 2 * INSERT_CHUNK), (2 * INSERT_CHUNK, 2 * INSERT_CHUNK + 1)]
    );
}
