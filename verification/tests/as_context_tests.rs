use async_local::as_context::{
    check_as_context, context_member, is_context, ContextMember, DeriveError, DeriveInputModel, FieldModel, TypePathModel,
};

fn path(segs: &[&str]) -> Vec<String> {
    segs.iter().map(|s| s.to_string()).collect()
}

fn field(segs: &[&str], arg: Option<&[&str]>) -> FieldModel {
    FieldModel { name: None, type_path: Some(TypePathModel { segments: path(segs), first_type_arg: arg.map(path) }) }
}

fn non_path_field() -> FieldModel {
    FieldModel { name: None, type_path: None }
}

fn input(fields: Vec<FieldModel>) -> DeriveInputModel {
    DeriveInputModel { lifetimes: 0, is_struct: true, fields }
}

#[test]
fn context_paths() {
    assert!(is_context(&path(&["Context"])));
    assert!(is_context(&path(&["async_local", "Context"])));
    assert!(!is_context(&path(&[])));
    assert!(!is_context(&path(&["context"])));
    assert!(!is_context(&path(&["other", "Context"])));
    assert!(!is_context(&path(&["async_local", "Context", "Inner"])));
    assert!(!is_context(&path(&["Contexts"])));
    assert!(!is_context(&path(&["async_local"])));
}

#[test]
fn single_context_field_is_found() {
    let i = input(vec![
        field(&["usize"], None),
        field(&["Cell"], Some(&["usize"])),
        field(&["Context"], Some(&["AtomicUsize"])),
        non_path_field(),
    ]);
    assert_eq!(check_as_context(&i), Ok(2));
}

#[test]
fn qualified_context_field_is_found() {
    let i = input(vec![field(&["async_local", "Context"], Some(&["u8"]))]);
    assert_eq!(check_as_context(&i), Ok(0));
}

#[test]
fn lifetimes_are_refused_first() {
    let i = DeriveInputModel { lifetimes: 2, is_struct: false, fields: vec![] };
    assert_eq!(check_as_context(&i), Err(DeriveError::Lifetimes(2)));
}

#[test]
fn enums_are_refused() {
    let i = DeriveInputModel { lifetimes: 0, is_struct: false, fields: vec![field(&["Context"], None)] };
    assert_eq!(check_as_context(&i), Err(DeriveError::NotAStruct));
}

#[test]
fn wrapped_contexts_are_refused() {
    let i = input(vec![
        field(&["Context"], Some(&["u8"])),
        field(&["Box"], Some(&["Context"])),
        field(&["Arc"], Some(&["async_local", "Context"])),
    ]);
    assert_eq!(check_as_context(&i), Err(DeriveError::WrappedContext(vec![1, 2])));
}

#[test]
fn missing_context_is_refused() {
    let i = input(vec![field(&["usize"], None), non_path_field()]);
    assert_eq!(check_as_context(&i), Err(DeriveError::NoContext));
    assert_eq!(check_as_context(&input(vec![])), Err(DeriveError::NoContext));
}

#[test]
fn repeated_context_is_refused() {
    let i = input(vec![
        field(&["Context"], Some(&["u8"])),
        field(&["usize"], None),
        field(&["async_local", "Context"], Some(&["u16"])),
    ]);
    assert_eq!(check_as_context(&i), Err(DeriveError::MultipleContexts(vec![0, 2])));
}

#[test]
fn context_member_by_name_or_position() {
    let mut named = field(&["Context"], Some(&["u8"]));
    named.name = Some("disarmed".to_string());
    let i = input(vec![field(&["usize"], None), named]);
    assert_eq!(context_member(&i, 1), ContextMember::Named("disarmed".to_string()));
    assert_eq!(context_member(&i, 0), ContextMember::Unnamed(0));
}
