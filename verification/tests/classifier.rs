use mentionbot::message::{check_comment, check_key, classify, Category};

#[test]
fn check_key_finds_tag_and_trims() {
    let r = check_key("idea", "  #idea una lista de tareas  ");
    assert_eq!(r, Some("#idea una lista de tareas".to_string()));
}

#[test]
fn check_key_absent_tag() {
    assert_eq!(check_key("idea", "hola, buenos dias"), None);
    assert_eq!(check_key("pregunta", "#idea sin pregunta"), None);
}

#[test]
fn single_tag_idea() {
    let c = classify(" #idea una lista de tareas ");
    assert_eq!(c.category, Category::Idea);
    assert_eq!(c.payload, "#idea una lista de tareas");
    assert_eq!(c.reference, None);
}

#[test]
fn single_tag_question() {
    let c = classify("#pregunta como va esto?");
    assert_eq!(c.category, Category::Question);
    assert_eq!(c.payload, "#pregunta como va esto?");
    assert_eq!(c.reference, None);
}

#[test]
fn single_tag_comment() {
    let c = classify("#comentario 42 me parece bien");
    assert_eq!(c.category, Category::Comment);
    assert_eq!(c.payload, "#comentario 42 me parece bien");
}

#[test]
fn no_tag_falls_back_to_mention() {
    let c = classify("  hola, sin etiquetas  ");
    assert_eq!(c.category, Category::Mention);
    assert_eq!(c.payload, "  hola, sin etiquetas  ");
    assert_eq!(c.reference, None);
}

#[test]
fn comment_reference_extracted() {
    let c = classify("#comentario 42");
    assert_eq!(c.category, Category::Comment);
    assert_eq!(c.reference, Some("42".to_string()));
}

#[test]
fn comment_reference_inside_body() {
    let r = check_comment("comentario", "gracias #comentario 42 por el aviso");
    let (reference, body) = r.expect("tag is present");
    assert_eq!(reference, Some("42".to_string()));
    assert_eq!(body, Some("gracias #comentario 42 por el aviso".to_string()));
}

#[test]
fn comment_without_trailing_digits_has_no_reference() {
    let c = classify("#comentario");
    assert_eq!(c.category, Category::Comment);
    assert_eq!(c.reference, None);
}

#[test]
fn comment_with_space_but_no_digits_captures_empty() {
    let r = check_comment("comentario", "#comentario me gusta");
    let (reference, body) = r.expect("tag is present");
    assert_eq!(reference, Some(String::new()));
    assert_eq!(body, Some("#comentario me gusta".to_string()));
}

#[test]
fn comment_absent_tag() {
    assert_eq!(check_comment("comentario", "nada que ver"), None);
}

#[test]
fn priority_idea_beats_comment() {
    let c = classify("#idea #comentario 42");
    assert_eq!(c.category, Category::Idea);
    assert_eq!(c.reference, None);
}

#[test]
fn priority_question_beats_comment() {
    let c = classify("#comentario 7 y #pregunta cual?");
    assert_eq!(c.category, Category::Question);
}

#[test]
fn tag_only_and_blank_bodies() {
    assert_eq!(check_key("idea", "#idea"), Some("#idea".to_string()));
    assert_eq!(check_key("idea", "   \t  "), None);
}
