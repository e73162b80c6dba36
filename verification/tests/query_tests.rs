use yuanshen_workarounds_bot::query::filter_query;

fn chars(s: &str) -> Vec<char> {
    s.chars().collect()
}

fn filtered(s: &str) -> Option<String> {
    filter_query(&chars(s)).map(|name| name.into_iter().collect())
}

#[test]
fn strips_each_question_suffix() {
    assert_eq!(filtered("高达模型在哪里").as_deref(), Some("高达模型"));
    assert_eq!(filtered("高达模型在哪儿").as_deref(), Some("高达模型"));
    assert_eq!(filtered("高达模型在哪").as_deref(), Some("高达模型"));
    assert_eq!(filtered("高达模型哪里有").as_deref(), Some("高达模型"));
    assert_eq!(filtered("高达模型哪儿有").as_deref(), Some("高达模型"));
    assert_eq!(filtered("高达模型哪有").as_deref(), Some("高达模型"));
}

#[test]
fn strips_each_question_prefix() {
    assert_eq!(filtered("哪里有高达模型").as_deref(), Some("高达模型"));
    assert_eq!(filtered("哪儿有高达模型").as_deref(), Some("高达模型"));
    assert_eq!(filtered("哪有高达模型").as_deref(), Some("高达模型"));
}

#[test]
fn suffix_phrasing_wins_over_prefix_phrasing() {
    assert_eq!(filtered("哪有高达在哪").as_deref(), Some("哪有高达"));
}

#[test]
fn bare_question_leaves_an_empty_subject() {
    assert_eq!(filtered("在哪里").as_deref(), Some(""));
    assert_eq!(filtered("哪有").as_deref(), Some(""));
}

#[test]
fn whitespace_subject_is_passed_through_unmodified() {
    assert_eq!(filtered("  在哪").as_deref(), Some("  "));
}

#[test]
fn non_questions_are_ignored() {
    assert_eq!(filtered("你好"), None);
    assert_eq!(filtered(""), None);
    assert_eq!(filtered("哪里高达"), None);
}
