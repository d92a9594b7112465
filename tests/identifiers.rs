use sv_identifiers::categories::{hierarchical_net_identifier, module_identifier, variable_identifier};
use sv_identifiers::hierarchy::{constant_bit_select, hierarchical_identifier, hierarchy};
use sv_identifiers::lexical::{
    c_identifier, escaped_identifier, identifier, simple_identifier, system_tf_identifier,
};
use sv_identifiers::outcome::ParseErrorKind;
use sv_identifiers::scope::{
    class_scope, generate_block_scope, implicit_class_handle, local_scope, package_scope,
};
use sv_identifiers::scoped::{
    ps_identifier, ps_or_hierarchical_array_identifier, ps_or_hierarchical_net_identifier,
    ps_parameter_identifier, ps_type_identifier,
};
use sv_identifiers::syntax::{HierarchicalIdentifier, ImplicitClassHandle, Scope};

fn whole<T>(r: Result<(&str, T), sv_identifiers::outcome::ParseError>) -> T {
    match r {
        Ok((rest, v)) => {
            assert_eq!(rest, "");
            v
        }
        Err(e) => panic!("parse failed: {:?}", e),
    }
}

#[test]
fn test() {
    assert_eq!(
        format!("{:?}", identifier("shiftreg_a")),
        "Ok((\"\", Identifier { raw: [\"shiftreg_a\"] }))"
    );
    assert_eq!(
        format!("{:?}", identifier("_bus3")),
        "Ok((\"\", Identifier { raw: [\"_bus\", \"3\"] }))"
    );
    assert_eq!(
        format!("{:?}", identifier("n$657")),
        "Ok((\"\", Identifier { raw: [\"n\", \"$657\"] }))"
    );
    assert_eq!(
        format!("{:?}", identifier("\\busa+index")),
        "Ok((\"\", Identifier { raw: [\"\\\\\", \"busa+index\"] }))"
    );
    assert_eq!(
        format!("{:?}", identifier("\\-clock")),
        "Ok((\"\", Identifier { raw: [\"\\\\\", \"-clock\"] }))"
    );
    assert_eq!(
        format!("{:?}", system_tf_identifier("$display")),
        "Ok((\"\", Identifier { raw: [\"$\", \"display\"] }))"
    );
}

#[test]
fn fragments_spell_the_consumed_text() {
    for input in ["abc_9$x rest", "\\a+b c", "_q", "Zz0"] {
        let (rest, id) = identifier(input).unwrap();
        let consumed = &input[..input.len() - rest.len()];
        assert_eq!(id.raw.concat(), consumed);
    }
    let (rest, id) = system_tf_identifier("$finish;").unwrap();
    assert_eq!(rest, ";");
    assert_eq!(id.raw.concat(), "$finish");
}

#[test]
fn plain_word_is_consumed_whole() {
    let id = whole(identifier("_bus3"));
    assert_eq!(id.raw, vec!["_bus", "3"]);
    let id = whole(identifier("abc"));
    assert_eq!(id.raw, vec!["abc"]);
    let id = whole(identifier("a1b2"));
    assert_eq!(id.raw, vec!["a", "1b2"]);
}

#[test]
fn escaped_identifier_stops_at_whitespace() {
    let (rest, id) = escaped_identifier("\\foo bar").unwrap();
    assert_eq!(rest, " bar");
    assert_eq!(id.raw, vec!["\\", "foo"]);
}

#[test]
fn system_tf_identifier_needs_dollar() {
    let id = whole(system_tf_identifier("$display"));
    assert_eq!(id.raw, vec!["$", "display"]);
    let e = system_tf_identifier("display").unwrap_err();
    assert_eq!(e.kind, ParseErrorKind::MissingDollarPrefix);
    assert_eq!(e.at, "display");
    let e = system_tf_identifier("$ x").unwrap_err();
    assert_eq!(e.kind, ParseErrorKind::UnexpectedCharacter);
    assert_eq!(e.at, " x");
}

#[test]
fn error_kinds() {
    let e = simple_identifier("9abc").unwrap_err();
    assert_eq!(e.kind, ParseErrorKind::UnexpectedCharacter);
    assert_eq!(e.at, "9abc");
    let e = escaped_identifier("\\ x").unwrap_err();
    assert_eq!(e.kind, ParseErrorKind::EmptyEscapeBody);
    assert_eq!(e.at, " x");
    let e = escaped_identifier("\\").unwrap_err();
    assert_eq!(e.kind, ParseErrorKind::EmptyEscapeBody);
    let e = identifier("").unwrap_err();
    assert_eq!(e.kind, ParseErrorKind::NoAlternativeMatched);
    let e = identifier("1x").unwrap_err();
    assert_eq!(e.kind, ParseErrorKind::NoAlternativeMatched);
    assert_eq!(e.at, "1x");
}

#[test]
fn c_identifier_excludes_dollar() {
    let (rest, id) = c_identifier("ab$c").unwrap();
    assert_eq!(rest, "$c");
    assert_eq!(id.raw, vec!["ab"]);
    let (rest, id) = simple_identifier("ab$c").unwrap();
    assert_eq!(rest, "");
    assert_eq!(id.raw, vec!["ab", "$c"]);
}

#[test]
fn hierarchical_path_segments_and_leaf() {
    let h = whole(hierarchical_identifier("a.b.c"));
    assert_eq!(h.hierarchy.len(), 2);
    assert_eq!(h.hierarchy[0].identifier.raw, vec!["a"]);
    assert_eq!(h.hierarchy[1].identifier.raw, vec!["b"]);
    assert_eq!(h.hierarchy[0].constant_bit_select.as_ref().unwrap().len(), 0);
    assert_eq!(h.identifier.raw, vec!["c"]);
}

#[test]
fn hierarchical_root_anchor() {
    let h = whole(hierarchical_identifier("$root.a.b"));
    assert_eq!(h.hierarchy.len(), 2);
    assert_eq!(h.hierarchy[0].identifier.raw, vec!["$root"]);
    assert!(h.hierarchy[0].constant_bit_select.is_none());
    assert_eq!(h.hierarchy[1].identifier.raw, vec!["a"]);
    assert_eq!(h.identifier.raw, vec!["b"]);
}

#[test]
fn hierarchical_single_name_has_bare_shape() {
    let h = whole(hierarchical_identifier("c"));
    assert!(h.hierarchy.is_empty());
    assert_eq!(h.identifier.raw, vec!["c"]);
    let bare = HierarchicalIdentifier::from(whole(identifier("c")));
    assert_eq!(format!("{:?}", h), format!("{:?}", bare));
}

#[test]
fn hierarchy_with_indices_and_spaces() {
    let h = whole(hierarchical_identifier("top [0] [i+1] .sub.sig"));
    assert_eq!(h.hierarchy.len(), 2);
    let sel = h.hierarchy[0].constant_bit_select.as_ref().unwrap();
    assert_eq!(sel.len(), 2);
    assert_eq!(sel[0].text, "0");
    assert_eq!(sel[1].text, "i+1");
    assert_eq!(h.identifier.raw, vec!["sig"]);
    let (rest, h) = hierarchical_identifier("a. b.c").unwrap();
    assert_eq!(rest, ".c");
    assert_eq!(h.identifier.raw, vec!["b"]);
    let e = hierarchy("a b").unwrap_err();
    assert_eq!(e.kind, ParseErrorKind::UnexpectedCharacter);
    assert_eq!(e.at, "b");
    let (rest, sel) = constant_bit_select("[3][4]x");
    assert_eq!(rest, "x");
    assert_eq!(sel.len(), 2);
}

#[test]
fn hierarchical_fails_only_without_leaf() {
    let e = hierarchical_identifier("a.").unwrap_err();
    assert_eq!(e.kind, ParseErrorKind::NoAlternativeMatched);
    assert_eq!(e.at, "");
    let (rest, h) = hierarchical_net_identifier("x.y z").unwrap();
    assert_eq!(rest, " z");
    assert_eq!(h.identifier.raw, vec!["y"]);
}

#[test]
fn package_scope_named_and_unit() {
    match whole(package_scope("pkg::")) {
        Scope::PackageScope(id) => assert_eq!(id.raw, vec!["pkg"]),
        other => panic!("unexpected {:?}", other),
    }
    match whole(package_scope("$unit ::")) {
        Scope::PackageScope(id) => assert_eq!(id.raw, vec!["$unit"]),
        other => panic!("unexpected {:?}", other),
    }
    let e = package_scope("pkg").unwrap_err();
    assert_eq!(e.kind, ParseErrorKind::NoAlternativeMatched);
}

#[test]
fn scoped_identifier_with_and_without_scope() {
    let p = whole(ps_identifier("pkg::name"));
    match p.scope {
        Some(Scope::PackageScope(ref id)) => assert_eq!(id.raw, vec!["pkg"]),
        ref other => panic!("unexpected {:?}", other),
    }
    assert!(p.identifier.hierarchy.is_empty());
    assert_eq!(p.identifier.identifier.raw, vec!["name"]);
    let p = whole(ps_identifier("name"));
    assert!(p.scope.is_none());
    assert_eq!(p.identifier.identifier.raw, vec!["name"]);
}

#[test]
fn productions_are_deterministic() {
    for input in ["a.b.c", "$root.x", "pkg::n", "\\e x", "1"] {
        assert_eq!(
            format!("{:?}", hierarchical_identifier(input)),
            format!("{:?}", hierarchical_identifier(input))
        );
        assert_eq!(
            format!("{:?}", ps_type_identifier(input)),
            format!("{:?}", ps_type_identifier(input))
        );
    }
}

#[test]
fn category_scope_tables() {
    let p = whole(ps_type_identifier("local :: t"));
    assert!(matches!(p.scope, Some(Scope::LocalScope)));
    let p = whole(ps_type_identifier("C #(8)::t"));
    assert!(matches!(p.scope, Some(Scope::ClassScope)));
    let p = whole(ps_parameter_identifier("name"));
    match p.scope {
        Some(Scope::GenerateBlockScope(ref v)) => assert!(v.is_empty()),
        ref other => panic!("unexpected {:?}", other),
    }
    let p = whole(ps_parameter_identifier("blk[2].inner.p"));
    match p.scope {
        Some(Scope::GenerateBlockScope(ref v)) => {
            assert_eq!(v.len(), 2);
            assert_eq!(v[0].constant_expression.as_ref().unwrap().text, "2");
            assert!(v[1].constant_expression.is_none());
        }
        ref other => panic!("unexpected {:?}", other),
    }
    let p = whole(ps_parameter_identifier("local::p"));
    match p.scope {
        Some(Scope::PackageScope(ref id)) => assert_eq!(id.raw, vec!["local"]),
        ref other => panic!("unexpected {:?}", other),
    }
    assert_eq!(p.identifier.identifier.raw, vec!["p"]);
}

#[test]
fn bare_first_trial_order() {
    let (rest, p) = ps_or_hierarchical_net_identifier("a.b").unwrap();
    assert_eq!(rest, ".b");
    assert!(p.identifier.hierarchy.is_empty());
    let p = whole(ps_or_hierarchical_net_identifier("$root.a"));
    assert_eq!(p.identifier.hierarchy.len(), 1);
    let p = whole(ps_or_hierarchical_array_identifier("a.b"));
    assert!(p.scope.is_none());
    assert_eq!(p.identifier.hierarchy.len(), 1);
    let p = whole(ps_or_hierarchical_array_identifier("this.mem"));
    assert!(matches!(p.scope, Some(Scope::ImplicitClassHandle(ImplicitClassHandle::This))));
    let p = whole(ps_or_hierarchical_array_identifier("this . super.m"));
    assert!(matches!(p.scope, Some(Scope::ImplicitClassHandle(ImplicitClassHandle::ThisSuper))));
}

#[test]
fn other_scopes() {
    assert!(matches!(whole(local_scope("local::")), Scope::LocalScope));
    assert_eq!(whole(implicit_class_handle("super")), ImplicitClassHandle::Super);
    assert!(matches!(whole(class_scope("C #( W, 2 ) ::")), Scope::ClassScope));
    let e = class_scope("C::").unwrap_err();
    assert_eq!(e.at, "::");
    let (rest, g) = generate_block_scope("x").unwrap();
    assert_eq!(rest, "x");
    assert!(matches!(g, Scope::GenerateBlockScope(ref v) if v.is_empty()));
}

#[test]
fn category_aliases() {
    assert_eq!(whole(module_identifier("top")).raw, vec!["top"]);
    assert_eq!(whole(variable_identifier("\\v+1")).raw, vec!["\\", "v+1"]);
}

#[test]
fn comments_between_tokens() {
    let h = whole(hierarchical_identifier("a /* x.y */ . b"));
    assert_eq!(h.hierarchy.len(), 1);
    assert_eq!(h.hierarchy[0].identifier.raw, vec!["a"]);
    assert_eq!(h.identifier.raw, vec!["b"]);
    let p = whole(ps_identifier("pkg // note\n :: name"));
    assert!(matches!(p.scope, Some(Scope::PackageScope(_))));
    assert_eq!(p.identifier.identifier.raw, vec!["name"]);
    let (rest, p) = ps_identifier("pkg /* open ::").unwrap();
    assert!(p.scope.is_none());
    assert_eq!(rest, " /* open ::");
}
