use job_model::model::job::Job;
use job_model::model::sql::{decimal_text, insert_values_text, truth_text};

#[test]
fn insert_values_of_a_small_job() {
    let text = Job::new("a", 5, false).to_sql_insert();
    assert_eq!(text, "('a',5,false)");
}

#[test]
fn insert_values_hold_the_three_fields_in_order() {
    let text = Job::new("a", 5, false).to_sql_insert();
    assert!(text.starts_with('('));
    assert!(text.ends_with(')'));
    let load = text.find("'a'").unwrap();
    let difficulty = text.find("5").unwrap();
    let flag = text.find("false").unwrap();
    assert!(load < difficulty);
    assert!(difficulty < flag);
    assert_eq!(text.matches(',').count(), 2);
}

#[test]
fn insert_values_of_a_persistent_job() {
    assert_eq!(Job::new("task", 255, true).to_sql_insert(), "('task',255,true)");
    assert_eq!(Job::new("task", 0, true).to_sql_insert(), "('task',0,true)");
}

#[test]
fn insert_values_of_an_empty_payload() {
    assert_eq!(Job::new("", 10, false).to_sql_insert(), "('',10,false)");
}

#[test]
fn insert_values_do_not_escape_the_payload() {
    assert_eq!(
        Job::new("{ load: 'test' }", 1, false).to_sql_insert(),
        "('{ load: 'test' }',1,false)"
    );
    assert_eq!(Job::new("a,b)", 42, true).to_sql_insert(), "('a,b)',42,true)");
}

#[test]
fn insert_values_keep_characters_outside_ascii() {
    assert_eq!(Job::new("né ✓", 7, false).to_sql_insert(), "('né ✓',7,false)");
}

#[test]
fn insert_values_ignore_the_lifecycle_fields() {
    let mut j = Job::new("a", 5, false).start("w").finish("r");
    j.id = Some(3);
    assert_eq!(j.to_sql_insert(), "('a',5,false)");
}

#[test]
fn insert_values_text_agrees_with_the_method() {
    assert_eq!(insert_values_text("a", 5, false), "('a',5,false)");
    assert_eq!(insert_values_text("xyz", 120, true), "('xyz',120,true)");
}

#[test]
fn decimal_text_of_one_two_and_three_digits() {
    assert_eq!(decimal_text(0), "0");
    assert_eq!(decimal_text(7), "7");
    assert_eq!(decimal_text(9), "9");
    assert_eq!(decimal_text(10), "10");
    assert_eq!(decimal_text(42), "42");
    assert_eq!(decimal_text(99), "99");
    assert_eq!(decimal_text(100), "100");
    assert_eq!(decimal_text(105), "105");
    assert_eq!(decimal_text(110), "110");
    assert_eq!(decimal_text(200), "200");
    assert_eq!(decimal_text(255), "255");
}

#[test]
fn decimal_text_agrees_with_std_on_every_byte() {
    let mut n: u8 = 0;
    loop {
        assert_eq!(decimal_text(n), format!("{}", n));
        if n == u8::MAX {
            break;
        }
        n += 1;
    }
}

#[test]
fn truth_text_is_the_word() {
    assert_eq!(truth_text(true), "true");
    assert_eq!(truth_text(false), "false");
}
