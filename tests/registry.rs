use yew_bulma::link::FormFieldLink;

fn keys(link: &FormFieldLink<u32, u32>) -> Vec<String> {
    let mut k = link.registered_fields();
    k.sort();
    k
}

#[test]
fn registered_fields_ignore_insertion_order() {
    let mut first: FormFieldLink<u32, u32> = FormFieldLink::new();
    first.register_field("a".to_string(), 1);
    first.register_field("b".to_string(), 2);
    first.register_field("c".to_string(), 3);

    let mut second: FormFieldLink<u32, u32> = FormFieldLink::new();
    second.register_field("c".to_string(), 3);
    second.register_field("a".to_string(), 1);
    second.register_field("b".to_string(), 2);
    second.register_field("a".to_string(), 1);

    assert_eq!(keys(&first), vec!["a", "b", "c"]);
    assert_eq!(keys(&second), vec!["a", "b", "c"]);
}

#[test]
fn empty_registry_has_no_fields() {
    let link: FormFieldLink<u32, u32> = FormFieldLink::new();
    assert!(link.registered_fields().is_empty());
    assert!(!link.form_is_registered());
    assert!(!link.field_is_registered(&"a".to_string()));
}

#[test]
fn registering_same_key_replaces_handle() {
    let mut link: FormFieldLink<u32, u32> = FormFieldLink::new();
    link.register_field("a".to_string(), 1);
    link.register_field("a".to_string(), 2);
    assert!(link.field_is_registered(&"a".to_string()));
    assert_eq!(link.field_link(&"a".to_string()), Some(&2));
    assert_eq!(link.registered_fields(), vec!["a".to_string()]);
    assert_eq!(link.field_links().len(), 1);
}

#[test]
fn register_form_last_write_wins() {
    let mut link: FormFieldLink<u32, u32> = FormFieldLink::new();
    assert_eq!(link.form_link(), None);
    link.register_form(5);
    link.register_form(6);
    assert!(link.form_is_registered());
    assert_eq!(link.form_link(), Some(&6));
}

#[test]
fn scenario_c_reparent_field() {
    let mut fresh: FormFieldLink<u32, u32> = FormFieldLink::new();
    assert!(fresh.reattach_field(true, "email".to_string(), 7));
    assert!(fresh.field_is_registered(&"email".to_string()));
    assert_eq!(fresh.field_link(&"email".to_string()), Some(&7));

    let mut known: FormFieldLink<u32, u32> = FormFieldLink::new();
    known.register_field("email".to_string(), 1);
    assert!(!known.reattach_field(true, "email".to_string(), 9));
    assert_eq!(known.field_link(&"email".to_string()), Some(&1));
    assert_eq!(known.registered_fields().len(), 1);

    let mut same: FormFieldLink<u32, u32> = FormFieldLink::new();
    assert!(!same.reattach_field(false, "email".to_string(), 7));
    assert!(!same.field_is_registered(&"email".to_string()));
}

#[test]
fn reparent_form() {
    let mut fresh: FormFieldLink<u32, u32> = FormFieldLink::new();
    assert!(fresh.reattach_form(true, 3));
    assert_eq!(fresh.form_link(), Some(&3));
    assert!(!fresh.reattach_form(true, 4));
    assert_eq!(fresh.form_link(), Some(&3));

    let mut other: FormFieldLink<u32, u32> = FormFieldLink::new();
    assert!(!other.reattach_form(false, 4));
    assert!(!other.form_is_registered());
}

#[test]
fn scenario_d_unregistered_field_has_no_handle() {
    let mut link: FormFieldLink<u32, u32> = FormFieldLink::new();
    link.register_field("a".to_string(), 1);
    assert_eq!(link.field_link(&"missing".to_string()), None);
    assert!(!link.field_is_registered(&"missing".to_string()));
}
