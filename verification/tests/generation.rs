use getters2::accessor::{kind_suffix, AccessorSpec};
use getters2::config::{resolve, AccessorKind, Emission, FieldConfig, TypeConfig, VariantConfig};
use getters2::declaration::{Declaration, Field, Generics, Shape, Variant};
use getters2::error::GettersError;
use getters2::expand::render_all;
use getters2::ordinal::{method_name, tuple_element_name, MAX_POSITIONAL_FIELDS};
use getters2::render::{tuple_elements, tuple_elements_mut};
use getters2::text::{push_decimal, to_ascii_lowercase, to_lower_char};

fn all_on() -> TypeConfig {
    TypeConfig { mutable: true, clone: true, deref: true }
}

fn all_skipped() -> VariantConfig {
    VariantConfig { skip: true, skip_mutable: true, skip_clone: true, skip_deref: true }
}

fn decl(name: &str, shape: Shape, config: TypeConfig, fields: Vec<Field>, variants: Vec<Variant>) -> Declaration {
    Declaration {
        name: name.to_string(),
        shape,
        config,
        generics: Generics::default(),
        fields,
        variants,
    }
}

fn variant(name: &str, skip: VariantConfig, fields: Vec<Field>) -> Variant {
    Variant { name: name.to_string(), fields, discriminant: None, skip }
}

fn positional_fields(count: usize, value_type: &str) -> Vec<Field> {
    let mut fields = Vec::new();
    for _ in 0..count {
        fields.push(Field::positional(value_type, FieldConfig::default()));
    }
    fields
}

fn names(specs: &[AccessorSpec]) -> Vec<String> {
    specs.iter().map(|spec| spec.method_name.clone()).collect()
}

#[test]
fn named_struct_with_all_flags_gets_twelve_accessors() {
    let fields = vec![
        Field::named("x", "f32", FieldConfig::default()),
        Field::named("y", "f32", FieldConfig::default()),
        Field::named("z", "f32", FieldConfig::default()),
    ];
    let plan = decl("Vector3", Shape::NamedStruct, all_on(), fields, vec![]).plan().unwrap();
    assert_eq!(
        names(&plan),
        vec![
            "x_ref", "x_mut", "x_clone", "x_deref", "y_ref", "y_mut", "y_clone", "y_deref",
            "z_ref", "z_mut", "z_clone", "z_deref",
        ]
    );
    assert!(plan.iter().all(|spec| !spec.guarded && spec.value_type == "f32"));
}

#[test]
fn tuple_struct_of_six_gets_twenty_four_accessors() {
    let plan = decl("Six", Shape::TupleStruct, all_on(), positional_fields(6, "i64"), vec![])
        .plan()
        .unwrap();
    let mut expected = Vec::new();
    for base in ["first", "second", "third", "fourth", "fifth", "last"] {
        for suffix in ["ref", "mut", "clone", "deref"] {
            expected.push(format!("{}_{}", base, suffix));
        }
    }
    assert_eq!(plan.len(), 24);
    assert_eq!(names(&plan), expected);
    for (j, spec) in plan.iter().enumerate() {
        assert_eq!(spec.position, j / 4);
        assert_eq!(spec.field_count, 6);
        assert_eq!(spec.field_name, None);
    }
}

#[test]
fn sole_field_of_a_newtype_is_first() {
    let plan = decl(
        "Meters",
        Shape::NewtypeStruct,
        TypeConfig::default(),
        positional_fields(1, "f64"),
        vec![],
    )
    .plan()
    .unwrap();
    assert_eq!(names(&plan), vec!["first_ref"]);
    assert_eq!(method_name(0, 1), Ok("first"));
}

fn animal() -> Declaration {
    let no_deref = FieldConfig { skip_deref: true, ..FieldConfig::default() };
    let fields = || {
        vec![
            Field::named("name", "String", no_deref),
            Field::named("age", "u8", FieldConfig::default()),
        ]
    };
    decl(
        "Animal",
        Shape::NamedEnum,
        all_on(),
        vec![],
        vec![
            variant("Dog", VariantConfig::default(), fields()),
            variant("Cat", VariantConfig::default(), fields()),
        ],
    )
}

#[test]
fn named_enum_with_a_field_that_skips_deref() {
    let plan = animal().plan().unwrap();
    assert_eq!(
        names(&plan),
        vec![
            "dog_name_ref",
            "dog_name_mut",
            "dog_name_clone",
            "dog_age_ref",
            "dog_age_mut",
            "dog_age_clone",
            "dog_age_deref",
            "cat_name_ref",
            "cat_name_mut",
            "cat_name_clone",
            "cat_age_ref",
            "cat_age_mut",
            "cat_age_clone",
            "cat_age_deref",
        ]
    );
    for spec in &plan {
        assert!(spec.guarded);
        assert_eq!(spec.owning_type, "Animal");
        assert!(spec.render().contains(") -> Option<"));
    }
    assert_eq!(plan[0].owning_variant, "Dog");
    assert_eq!(plan[0].variant_index, 0);
    assert_eq!(plan[7].owning_variant, "Cat");
    assert_eq!(plan[7].variant_index, 1);
}

#[test]
fn fully_skipped_variant_gets_nothing() {
    let eager = FieldConfig { mutable: true, clone: true, deref: true, ..FieldConfig::default() };
    let declaration = decl(
        "Animal",
        Shape::NamedEnum,
        all_on(),
        vec![],
        vec![
            variant(
                "Dog",
                all_skipped(),
                vec![Field::named("name", "String", eager), Field::named("age", "u8", eager)],
            ),
            variant("Cat", all_skipped(), vec![Field::positional("i64", eager)]),
            variant("Person", VariantConfig::default(), positional_fields(1, "u8")),
        ],
    );
    let plan = declaration.plan().unwrap();
    assert_eq!(
        names(&plan),
        vec!["person_first_ref", "person_first_mut", "person_first_clone", "person_first_deref"]
    );
    assert!(plan.iter().all(|spec| spec.variant_index == 2));
}

#[test]
fn skip_wins_over_every_enabling_flag() {
    let eager = FieldConfig { mutable: true, clone: true, deref: true, ..FieldConfig::default() };
    for kind in [AccessorKind::Ref, AccessorKind::Mut, AccessorKind::Clone, AccessorKind::Deref] {
        let mut at_field = eager;
        let mut at_variant = VariantConfig::default();
        match kind {
            AccessorKind::Ref => {
                at_field.skip = true;
                at_variant.skip = true;
            }
            AccessorKind::Mut => {
                at_field.skip_mutable = true;
                at_variant.skip_mutable = true;
            }
            AccessorKind::Clone => {
                at_field.skip_clone = true;
                at_variant.skip_clone = true;
            }
            AccessorKind::Deref => {
                at_field.skip_deref = true;
                at_variant.skip_deref = true;
            }
        }
        let by_field = decl(
            "S",
            Shape::NamedStruct,
            all_on(),
            vec![Field::named("a", "u8", at_field)],
            vec![],
        )
        .plan()
        .unwrap();
        assert_eq!(by_field.len(), 3);
        assert!(by_field.iter().all(|spec| spec.kind != kind));
        let by_variant = decl(
            "E",
            Shape::NamedEnum,
            all_on(),
            vec![],
            vec![variant("V", at_variant, vec![Field::named("a", "u8", eager)])],
        )
        .plan()
        .unwrap();
        assert_eq!(by_variant.len(), 3);
        assert!(by_variant.iter().all(|spec| spec.kind != kind));
    }
}

#[test]
fn resolve_follows_the_three_levels() {
    let nothing = TypeConfig::default();
    let plain = FieldConfig::default();
    let unskipped = VariantConfig::default();
    assert_eq!(
        resolve(nothing, unskipped, plain),
        Emission { emit_ref: true, emit_mut: false, emit_clone: false, emit_deref: false }
    );
    assert_eq!(
        resolve(all_on(), unskipped, plain),
        Emission { emit_ref: true, emit_mut: true, emit_clone: true, emit_deref: true }
    );
    let only_deref = FieldConfig { deref: true, ..plain };
    assert_eq!(
        resolve(nothing, unskipped, only_deref),
        Emission { emit_ref: true, emit_mut: false, emit_clone: false, emit_deref: true }
    );
    let torn = FieldConfig { clone: true, skip_clone: true, skip: true, ..plain };
    assert_eq!(
        resolve(all_on(), unskipped, torn),
        Emission { emit_ref: false, emit_mut: true, emit_clone: false, emit_deref: true }
    );
    let no_mut = VariantConfig { skip_mutable: true, ..unskipped };
    assert_eq!(
        resolve(all_on(), no_mut, FieldConfig { mutable: true, ..plain }),
        Emission { emit_ref: true, emit_mut: false, emit_clone: true, emit_deref: true }
    );
    assert_eq!(
        resolve(all_on(), all_skipped(), only_deref),
        Emission { emit_ref: false, emit_mut: false, emit_clone: false, emit_deref: false }
    );
}

#[test]
fn ordinal_names() {
    let words = [
        "first",
        "second",
        "third",
        "fourth",
        "fifth",
        "sixth",
        "seventh",
        "eighth",
        "ninth",
        "tenth",
        "eleventh",
        "twelfth",
        "thirteenth",
        "fourteenth",
        "fifteenth",
        "sixteenth",
        "seventeenth",
        "eighteenth",
        "nineteenth",
    ];
    for (position, word) in words.iter().enumerate() {
        assert_eq!(method_name(position, 20), Ok(*word));
        assert_eq!(method_name(position, 40), Ok(*word));
    }
    assert_eq!(method_name(19, 20), Ok("last"));
    assert_eq!(method_name(1, 2), Ok("last"));
    assert_eq!(method_name(0, 2), Ok("first"));
    assert_eq!(method_name(0, 1), Ok("first"));
    assert_eq!(method_name(7, 1), Ok("first"));
    assert_eq!(method_name(30, 31), Ok("last"));
    assert_eq!(method_name(0, 0), Ok("first"));
    assert_eq!(method_name(5, 3), Ok("sixth"));
}

#[test]
fn ordinal_names_end_at_the_nineteenth() {
    assert_eq!(method_name(19, 21), Err(GettersError::PositionOutOfRange));
    assert_eq!(method_name(19, 0), Err(GettersError::PositionOutOfRange));
    assert_eq!(method_name(25, 3), Err(GettersError::PositionOutOfRange));
    assert_eq!(method_name(usize::MAX, 5), Err(GettersError::PositionOutOfRange));
    assert_eq!(method_name(usize::MAX, usize::MAX), Err(GettersError::PositionOutOfRange));
    assert_eq!(method_name(usize::MAX - 1, usize::MAX), Ok("last"));
}

#[test]
fn tuple_patterns() {
    assert_eq!(MAX_POSITIONAL_FIELDS, 20);
    assert_eq!(tuple_element_name(0), "a");
    assert_eq!(tuple_element_name(7), "h");
    assert_eq!(tuple_element_name(19), "t");
    assert_eq!(tuple_elements(0), "");
    assert_eq!(tuple_elements(1), "ref a");
    assert_eq!(tuple_elements(3), "ref a, ref b, ref c");
    assert_eq!(tuple_elements_mut(0), "");
    assert_eq!(tuple_elements_mut(2), "ref mut a, ref mut b");
    assert_eq!(
        tuple_elements(20),
        "ref a, ref b, ref c, ref d, ref e, ref f, ref g, ref h, ref i, ref j, \
         ref k, ref l, ref m, ref n, ref o, ref p, ref q, ref r, ref s, ref t"
    );
}

#[test]
fn suffixes() {
    assert_eq!(kind_suffix(AccessorKind::Ref), "ref");
    assert_eq!(kind_suffix(AccessorKind::Mut), "mut");
    assert_eq!(kind_suffix(AccessorKind::Clone), "clone");
    assert_eq!(kind_suffix(AccessorKind::Deref), "deref");
}

#[test]
fn lower_case_touches_ascii_capitals_only() {
    assert_eq!(to_ascii_lowercase("Dog"), "dog");
    assert_eq!(to_ascii_lowercase("HTTPResponse2_X"), "httpresponse2_x");
    assert_eq!(to_ascii_lowercase(""), "");
    assert_eq!(to_ascii_lowercase("ÉtatZ"), "Étatz");
    assert_eq!(to_lower_char('A'), 'a');
    assert_eq!(to_lower_char('Z'), 'z');
    assert_eq!(to_lower_char('@'), '@');
    assert_eq!(to_lower_char('['), '[');
    assert_eq!(to_lower_char('q'), 'q');
}

#[test]
fn decimal_positions() {
    for (n, expected) in [(0usize, "0"), (7, "7"), (10, "10"), (19, "19"), (120, "120"), (90017, "90017")] {
        let mut text = String::from("self.");
        push_decimal(&mut text, n);
        assert_eq!(text, format!("self.{}", expected));
    }
    let mut text = String::new();
    push_decimal(&mut text, usize::MAX);
    assert_eq!(text, usize::MAX.to_string());
}

#[test]
fn variant_prefix_is_lower_case() {
    let plan = decl(
        "Message",
        Shape::TupleEnum,
        TypeConfig::default(),
        vec![],
        vec![variant("HTTPReply", VariantConfig::default(), positional_fields(2, "u16"))],
    )
    .plan()
    .unwrap();
    assert_eq!(names(&plan), vec!["httpreply_first_ref", "httpreply_last_ref"]);
    assert_eq!(plan[0].owning_variant, "HTTPReply");
}

#[test]
fn unsupported_shapes_are_rejected() {
    for shape in [Shape::UnitStruct, Shape::Union] {
        assert!(!shape.is_supported());
        let declaration = decl(
            "U",
            shape,
            all_on(),
            vec![Field::named("a", "u8", FieldConfig::default())],
            vec![variant("V", VariantConfig::default(), positional_fields(1, "u8"))],
        );
        assert_eq!(declaration.plan(), Err(GettersError::UnsupportedShape));
        assert_eq!(declaration.expand(), Err(GettersError::UnsupportedShape));
    }
    for shape in [Shape::NamedStruct, Shape::TupleStruct, Shape::NewtypeStruct] {
        assert!(shape.is_supported() && shape.is_struct_like() && !shape.is_enum_like());
    }
    for shape in [Shape::NamedEnum, Shape::TupleEnum, Shape::NewtypeEnum, Shape::UnitEnum] {
        assert!(shape.is_supported() && shape.is_enum_like() && !shape.is_struct_like());
    }
}

#[test]
fn explicit_discriminant_is_rejected() {
    let mut tagged = variant("B", VariantConfig::default(), vec![]);
    tagged.discriminant = Some("7".to_string());
    let declaration = decl(
        "E",
        Shape::UnitEnum,
        all_on(),
        vec![],
        vec![variant("A", VariantConfig::default(), positional_fields(1, "u8")), tagged],
    );
    assert!(declaration.any_discriminant());
    assert_eq!(declaration.methods_enum(), Err(GettersError::UnsupportedDiscriminant));
    assert_eq!(declaration.plan(), Err(GettersError::UnsupportedDiscriminant));
    assert_eq!(declaration.expand(), Err(GettersError::UnsupportedDiscriminant));
}

#[test]
fn discriminant_is_reported_before_position() {
    let mut tagged = variant("B", all_skipped(), vec![]);
    tagged.discriminant = Some("1 << 3".to_string());
    let declaration = decl(
        "E",
        Shape::TupleEnum,
        all_on(),
        vec![],
        vec![variant("A", VariantConfig::default(), positional_fields(21, "u8")), tagged],
    );
    assert_eq!(declaration.plan(), Err(GettersError::UnsupportedDiscriminant));
}

#[test]
fn twenty_positional_fields_are_the_limit() {
    let twenty = decl("T", Shape::TupleStruct, TypeConfig::default(), positional_fields(20, "u8"), vec![]);
    let plan = twenty.plan().unwrap();
    assert_eq!(plan.len(), 20);
    assert_eq!(plan[18].method_name, "nineteenth_ref");
    assert_eq!(plan[19].method_name, "last_ref");
    assert_eq!(plan[7].method_name, "eighth_ref");

    let more = decl("T", Shape::TupleStruct, TypeConfig::default(), positional_fields(21, "u8"), vec![]);
    assert_eq!(more.plan(), Err(GettersError::PositionOutOfRange));
    assert_eq!(more.methods_struct(), Err(GettersError::PositionOutOfRange));
    assert_eq!(more.method_field(0), Err(GettersError::PositionOutOfRange));
    assert_eq!(more.expand(), Err(GettersError::PositionOutOfRange));
}

#[test]
fn skipped_positional_fields_still_count() {
    let hidden = FieldConfig { skip: true, ..FieldConfig::default() };
    let mut fields = Vec::new();
    for _ in 0..21 {
        fields.push(Field::positional("u8", hidden));
    }
    let declaration = decl("T", Shape::TupleStruct, TypeConfig::default(), fields, vec![]);
    assert_eq!(declaration.plan(), Err(GettersError::PositionOutOfRange));
}

#[test]
fn variant_with_too_many_positional_fields_is_rejected() {
    let declaration = decl(
        "E",
        Shape::TupleEnum,
        TypeConfig::default(),
        vec![],
        vec![
            variant("Small", VariantConfig::default(), positional_fields(2, "u8")),
            variant("Large", all_skipped(), positional_fields(21, "u8")),
        ],
    );
    assert_eq!(declaration.plan(), Err(GettersError::PositionOutOfRange));
    assert_eq!(declaration.method_variant(1, 3), Err(GettersError::PositionOutOfRange));
    assert_eq!(declaration.method_variant(0, 1).map(|specs| names(&specs)), Ok(vec!["small_last_ref".to_string()]));

    let fits = decl(
        "E",
        Shape::TupleEnum,
        TypeConfig::default(),
        vec![],
        vec![variant("Large", VariantConfig::default(), positional_fields(20, "u8"))],
    );
    let plan = fits.plan().unwrap();
    assert_eq!(plan.len(), 20);
    assert!(plan.iter().all(|spec| spec.is_well_formed()));
    assert!(plan[19].render().contains("ref s, ref t) = self"));
    assert!(plan[19].render().contains("Some(t)"));
}

#[test]
fn named_fields_have_no_limit() {
    let mut fields = Vec::new();
    for i in 0..30 {
        fields.push(Field::named(&format!("f{}", i), "u8", FieldConfig::default()));
    }
    let as_struct = decl("S", Shape::NamedStruct, TypeConfig::default(), fields.clone(), vec![]);
    assert_eq!(as_struct.plan().unwrap().len(), 30);
    let as_enum = decl(
        "E",
        Shape::NamedEnum,
        TypeConfig::default(),
        vec![],
        vec![variant("V", VariantConfig::default(), fields)],
    );
    let plan = as_enum.plan().unwrap();
    assert_eq!(plan.len(), 30);
    assert_eq!(plan[29].method_name, "v_f29_ref");
}

#[test]
fn variants_without_fields_get_nothing() {
    let declaration = decl(
        "Unit",
        Shape::UnitEnum,
        all_on(),
        vec![],
        vec![
            variant("A", VariantConfig::default(), vec![]),
            variant("B", VariantConfig::default(), vec![]),
        ],
    );
    assert_eq!(declaration.plan(), Ok(vec![]));
    assert_eq!(declaration.expand(), Ok("impl Unit {\n}\n".to_string()));
    let empty = decl("Empty", Shape::NamedEnum, all_on(), vec![], vec![]);
    assert_eq!(empty.plan(), Ok(vec![]));
}

#[test]
fn struct_ignores_variants_and_enum_ignores_fields() {
    let mut tagged = variant("V", VariantConfig::default(), positional_fields(1, "u8"));
    tagged.discriminant = Some("1".to_string());
    let as_struct = decl(
        "S",
        Shape::NamedStruct,
        TypeConfig::default(),
        vec![Field::named("a", "u8", FieldConfig::default())],
        vec![tagged],
    );
    assert_eq!(names(&as_struct.plan().unwrap()), vec!["a_ref"]);
    let as_enum = decl(
        "E",
        Shape::NewtypeEnum,
        TypeConfig::default(),
        vec![Field::named("a", "u8", FieldConfig::default())],
        vec![variant("V", VariantConfig::default(), positional_fields(1, "u8"))],
    );
    assert_eq!(names(&as_enum.plan().unwrap()), vec!["v_first_ref"]);
}

#[test]
fn plan_is_in_variant_field_kind_order() {
    let plan = animal().plan().unwrap();
    let rank = |kind: AccessorKind| match kind {
        AccessorKind::Ref => 0,
        AccessorKind::Mut => 1,
        AccessorKind::Clone => 2,
        AccessorKind::Deref => 3,
    };
    for pair in plan.windows(2) {
        let before = (pair[0].variant_index, pair[0].position, rank(pair[0].kind));
        let after = (pair[1].variant_index, pair[1].position, rank(pair[1].kind));
        assert!(before < after);
    }
}

#[test]
fn per_field_plans_add_up_to_the_plan() {
    let declaration = animal();
    let mut collected = Vec::new();
    for (v, variant) in declaration.variants.iter().enumerate() {
        for i in 0..variant.fields.len() {
            collected.extend(declaration.method_variant(v, i).unwrap());
        }
    }
    assert_eq!(Ok(collected), declaration.plan());
    assert_eq!(declaration.methods_enum(), declaration.plan());

    let vector = decl(
        "V",
        Shape::TupleStruct,
        all_on(),
        positional_fields(3, "f32"),
        vec![],
    );
    let mut collected = Vec::new();
    for i in 0..3 {
        collected.extend(vector.method_field(i).unwrap());
    }
    assert_eq!(Ok(collected), vector.plan());
    assert_eq!(vector.methods_struct(), vector.plan());
}

#[test]
fn generation_is_repeatable() {
    let declaration = animal();
    let first = declaration.expand();
    let second = declaration.clone().expand();
    assert!(first.is_ok());
    assert_eq!(first, second);
    let plan = declaration.plan().unwrap();
    assert_eq!(declaration.plan().unwrap(), plan);
    for spec in &plan {
        assert_eq!(spec.render(), spec.clone().render());
    }
    let text = render_all(&plan);
    assert_eq!(first.unwrap(), format!("impl Animal {{\n{}}}\n", text));
}

fn spec(kind: AccessorKind, guarded: bool, field_name: Option<&str>, position: usize, count: usize) -> AccessorSpec {
    AccessorSpec {
        method_name: "get".to_string(),
        kind,
        owning_type: "Owner".to_string(),
        variant_index: 0,
        owning_variant: "Var".to_string(),
        position,
        field_name: field_name.map(|name| name.to_string()),
        field_count: count,
        value_type: "Vec<u8>".to_string(),
        guarded,
    }
}

#[test]
fn direct_template() {
    assert_eq!(
        spec(AccessorKind::Ref, false, Some("data"), 0, 1).render(),
        "    #[inline(always)]\n    pub fn get(&self) -> &Vec<u8> {\n        &self.data\n    }\n"
    );
    assert_eq!(
        spec(AccessorKind::Mut, false, Some("data"), 0, 1).render(),
        "    #[inline(always)]\n    pub fn get(&mut self) -> &mut Vec<u8> {\n        &mut self.data\n    }\n"
    );
    assert_eq!(
        spec(AccessorKind::Clone, false, Some("data"), 0, 1).render(),
        "    #[inline(always)]\n    pub fn get(&self) -> Vec<u8> {\n        self.data.clone()\n    }\n"
    );
    assert_eq!(
        spec(AccessorKind::Deref, false, Some("data"), 0, 1).render(),
        "    #[inline(always)]\n    pub fn get(&self) -> Vec<u8> {\n        self.data\n    }\n"
    );
    assert_eq!(
        spec(AccessorKind::Ref, false, None, 12, 40).render(),
        "    #[inline(always)]\n    pub fn get(&self) -> &Vec<u8> {\n        &self.12\n    }\n"
    );
    assert_eq!(
        spec(AccessorKind::Clone, false, None, 0, 1).render(),
        "    #[inline(always)]\n    pub fn get(&self) -> Vec<u8> {\n        self.0.clone()\n    }\n"
    );
}

#[test]
fn guarded_template_with_named_field() {
    assert_eq!(
        spec(AccessorKind::Ref, true, Some("data"), 0, 1).render(),
        "    #[inline(always)]\n    pub fn get(&self) -> Option<&Vec<u8>> {\n        if let Owner::Var { data, .. } = self {\n            Some(data)\n        } else {\n            None\n        }\n    }\n"
    );
    assert_eq!(
        spec(AccessorKind::Mut, true, Some("data"), 0, 1).render(),
        "    #[inline(always)]\n    pub fn get(&mut self) -> Option<&mut Vec<u8>> {\n        if let Owner::Var { ref mut data, .. } = self {\n            Some(data)\n        } else {\n            None\n        }\n    }\n"
    );
    assert_eq!(
        spec(AccessorKind::Clone, true, Some("data"), 0, 1).render(),
        "    #[inline(always)]\n    pub fn get(&self) -> Option<Vec<u8>> {\n        if let Owner::Var { data, .. } = self {\n            Some(data.clone())\n        } else {\n            None\n        }\n    }\n"
    );
    assert_eq!(
        spec(AccessorKind::Deref, true, Some("data"), 0, 1).render(),
        "    #[inline(always)]\n    pub fn get(&self) -> Option<Vec<u8>> {\n        if let Owner::Var { data, .. } = self {\n            Some(*data)\n        } else {\n            None\n        }\n    }\n"
    );
}

#[test]
fn guarded_template_with_positional_field() {
    assert_eq!(
        spec(AccessorKind::Ref, true, None, 1, 3).render(),
        "    #[inline(always)]\n    pub fn get(&self) -> Option<&Vec<u8>> {\n        if let Owner::Var(ref a, ref b, ref c) = self {\n            Some(b)\n        } else {\n            None\n        }\n    }\n"
    );
    assert_eq!(
        spec(AccessorKind::Mut, true, None, 2, 3).render(),
        "    #[inline(always)]\n    pub fn get(&mut self) -> Option<&mut Vec<u8>> {\n        if let Owner::Var(ref mut a, ref mut b, ref mut c) = self {\n            Some(c)\n        } else {\n            None\n        }\n    }\n"
    );
    assert_eq!(
        spec(AccessorKind::Clone, true, None, 0, 1).render(),
        "    #[inline(always)]\n    pub fn get(&self) -> Option<Vec<u8>> {\n        if let Owner::Var(ref a) = self {\n            Some(a.clone())\n        } else {\n            None\n        }\n    }\n"
    );
    assert_eq!(
        spec(AccessorKind::Deref, true, None, 0, 2).render(),
        "    #[inline(always)]\n    pub fn get(&self) -> Option<Vec<u8>> {\n        if let Owner::Var(ref a, ref b) = self {\n            Some(*a)\n        } else {\n            None\n        }\n    }\n"
    );
}

#[test]
fn render_into_appends() {
    let mut text = String::from("// accessors\n");
    spec(AccessorKind::Deref, false, Some("x"), 0, 1).render_into(&mut text);
    assert_eq!(
        text,
        "// accessors\n    #[inline(always)]\n    pub fn get(&self) -> Vec<u8> {\n        self.x\n    }\n"
    );
    assert_eq!(render_all(&[].to_vec()), "");
}

#[test]
fn well_formedness() {
    assert!(spec(AccessorKind::Ref, false, None, 500, 3).is_well_formed());
    assert!(spec(AccessorKind::Ref, true, Some("x"), 500, 3).is_well_formed());
    assert!(spec(AccessorKind::Ref, true, None, 19, 20).is_well_formed());
    assert!(!spec(AccessorKind::Ref, true, None, 20, 20).is_well_formed());
    assert!(!spec(AccessorKind::Ref, true, None, 3, 21).is_well_formed());
    assert!(!spec(AccessorKind::Ref, true, None, 0, 0).is_well_formed());
}

#[test]
fn impl_block_carries_the_generics() {
    let mut declaration = decl(
        "Pair",
        Shape::NamedStruct,
        TypeConfig::default(),
        vec![Field::named("left", "T", FieldConfig::default())],
        vec![],
    );
    declaration.generics = Generics {
        impl_generics: "<T: Clone>".to_string(),
        type_generics: "<T>".to_string(),
        where_clause: "where T: Default".to_string(),
    };
    assert_eq!(
        declaration.expand().unwrap(),
        "impl<T: Clone> Pair<T> where T: Default {\n    #[inline(always)]\n    pub fn left_ref(&self) -> &T {\n        &self.left\n    }\n}\n"
    );
    declaration.generics.where_clause = String::new();
    assert_eq!(
        declaration.expand().unwrap(),
        "impl<T: Clone> Pair<T> {\n    #[inline(always)]\n    pub fn left_ref(&self) -> &T {\n        &self.left\n    }\n}\n"
    );
}

#[test]
fn whole_expansion_of_an_enum() {
    let declaration = decl(
        "Shape",
        Shape::TupleEnum,
        TypeConfig { mutable: false, clone: false, deref: true },
        vec![],
        vec![
            variant("Circle", VariantConfig::default(), positional_fields(1, "f64")),
            variant("Empty", VariantConfig::default(), vec![]),
        ],
    );
    assert_eq!(
        declaration.expand().unwrap(),
        "impl Shape {\n    #[inline(always)]\n    pub fn circle_first_ref(&self) -> Option<&f64> {\n        if let Shape::Circle(ref a) = self {\n            Some(a)\n        } else {\n            None\n        }\n    }\n    #[inline(always)]\n    pub fn circle_first_deref(&self) -> Option<f64> {\n        if let Shape::Circle(ref a) = self {\n            Some(*a)\n        } else {\n            None\n        }\n    }\n}\n"
    );
}

enum Reading {
    Celsius(f64),
    Missing { since: u32 },
}

impl Reading {
    pub fn celsius_first_ref(&self) -> Option<&f64> {
        if let Reading::Celsius(ref a) = self {
            Some(a)
        } else {
            None
        }
    }
    pub fn missing_since_mut(&mut self) -> Option<&mut u32> {
        if let Reading::Missing { ref mut since, .. } = self {
            Some(since)
        } else {
            None
        }
    }
    pub fn missing_since_deref(&self) -> Option<u32> {
        if let Reading::Missing { since, .. } = self {
            Some(*since)
        } else {
            None
        }
    }
}

#[test]
fn guarded_accessor_is_absent_on_another_variant() {
    let declaration = decl(
        "Reading",
        Shape::NamedEnum,
        TypeConfig::default(),
        vec![],
        vec![
            variant("Celsius", VariantConfig::default(), positional_fields(1, "f64")),
            variant(
                "Missing",
                VariantConfig { skip: true, ..VariantConfig::default() },
                vec![Field::named(
                    "since",
                    "u32",
                    FieldConfig { mutable: true, deref: true, ..FieldConfig::default() },
                )],
            ),
        ],
    );
    assert_eq!(
        names(&declaration.plan().unwrap()),
        vec!["celsius_first_ref", "missing_since_mut", "missing_since_deref"]
    );

    let mut warm = Reading::Celsius(21.5);
    assert_eq!(warm.celsius_first_ref(), Some(&21.5));
    assert_eq!(warm.missing_since_deref(), None);
    assert!(warm.missing_since_mut().is_none());

    let mut gone = Reading::Missing { since: 3 };
    assert_eq!(gone.celsius_first_ref(), None);
    *gone.missing_since_mut().unwrap() = 9;
    assert_eq!(gone.missing_since_deref(), Some(9));
}

fn method_names(text: &str) -> Vec<String> {
    let block: syn::ItemImpl = syn::parse_str(text).expect("an impl block");
    block
        .items
        .iter()
        .map(|item| match item {
            syn::ImplItem::Fn(method) => method.sig.ident.to_string(),
            _ => panic!("only methods are generated"),
        })
        .collect()
}

#[test]
fn expansions_are_impl_blocks_of_methods() {
    let declaration = animal();
    let text = declaration.expand().unwrap();
    assert_eq!(method_names(&text), names(&declaration.plan().unwrap()));

    let mut generic = decl(
        "Wrapper",
        Shape::TupleEnum,
        all_on(),
        vec![],
        vec![
            variant("Both", VariantConfig::default(), positional_fields(3, "Vec < & 'a T >")),
            variant("Neither", VariantConfig::default(), vec![]),
        ],
    );
    generic.generics = Generics {
        impl_generics: "< 'a , T : Clone >".to_string(),
        type_generics: "< 'a , T >".to_string(),
        where_clause: "where T : 'a".to_string(),
    };
    let text = generic.expand().unwrap();
    let block: syn::ItemImpl = syn::parse_str(&text).expect("an impl block");
    assert_eq!(block.generics.params.len(), 2);
    assert!(block.generics.where_clause.is_some());
    assert_eq!(block.items.len(), 12);
    assert_eq!(method_names(&text)[4..8], ["both_second_ref", "both_second_mut", "both_second_clone", "both_second_deref"]);

    let wide = decl("Wide", Shape::TupleStruct, all_on(), positional_fields(20, "u8"), vec![]);
    assert_eq!(method_names(&wide.expand().unwrap()).len(), 80);
}
