use srotas_desk::repo::items::like_pattern;

#[test]
fn a_search_is_wrapped_to_match_anywhere() {
    assert_eq!(like_pattern("pipe"), "%pipe%");
    assert_eq!(like_pattern(""), "%%");
}

#[test]
fn wildcards_and_the_escape_character_are_made_literal() {
    assert_eq!(like_pattern("50%"), "%50\\%%");
    assert_eq!(like_pattern("a_b"), "%a\\_b%");
    assert_eq!(like_pattern("C:\\dir"), "%C:\\\\dir%");
    assert_eq!(like_pattern("%_\\"), "%\\%\\_\\\\%");
}
