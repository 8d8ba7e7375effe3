use dart_wit_bindgen::generate::{FuncKind, GenError, Parsed};
use dart_wit_bindgen::model::{
    Case, Docs, EnumCase, Field, Flag, Function, Interface, Package, Results, Type, TypeDef, TypeDefKind,
    UnionCase,
};

fn no_docs() -> Docs {
    Docs { contents: None }
}

fn named(name: &str, kind: TypeDefKind) -> TypeDef {
    TypeDef { name: Some(name.to_string()), kind, docs: no_docs() }
}

fn anon(kind: TypeDefKind) -> TypeDef {
    TypeDef { name: None, kind, docs: no_docs() }
}

fn field(name: &str, ty: Type) -> Field {
    Field { name: name.to_string(), ty, docs: no_docs() }
}

fn sample_package() -> Package {
    let types = vec![
        // 0
        named(
            "my-type",
            TypeDefKind::Record(vec![field("count", Type::U32), field("label", Type::String)]),
        ),
        // 1
        named(
            "color",
            TypeDefKind::Enum(vec![
                EnumCase { name: "my-case".to_string(), docs: no_docs() },
                EnumCase { name: "other".to_string(), docs: no_docs() },
            ]),
        ),
        // 2
        named(
            "shape",
            TypeDefKind::Variant(vec![
                Case { name: "none".to_string(), ty: None, docs: no_docs() },
                Case { name: "circle".to_string(), ty: Some(Type::U32), docs: no_docs() },
            ]),
        ),
        // 3
        anon(TypeDefKind::Tuple(vec![Type::U8, Type::Bool])),
        // 4
        named(
            "perms",
            TypeDefKind::Flags(vec![
                Flag { name: "read".to_string(), docs: no_docs() },
                Flag { name: "write".to_string(), docs: no_docs() },
            ]),
        ),
        // 5
        named(
            "num",
            TypeDefKind::Union(vec![
                UnionCase { ty: Type::U32, docs: no_docs() },
                UnionCase { ty: Type::String, docs: no_docs() },
            ]),
        ),
        // 6
        named("alias-rec", TypeDefKind::Type(Type::Id(0))),
        // 7
        anon(TypeDefKind::Option(Type::Id(0))),
        // 8
        anon(TypeDefKind::Result { ok: Some(Type::U32), err: None }),
        // 9
        anon(TypeDefKind::List(Type::String)),
        // 10
        anon(TypeDefKind::Future(None)),
        // 11
        anon(TypeDefKind::Stream { element: Some(Type::S64), end: Some(Type::Bool) }),
    ];
    Package { types, interfaces: vec![calc_interface()] }
}

fn add_fn() -> Function {
    Function {
        name: "add".to_string(),
        docs: no_docs(),
        params: vec![("a".to_string(), Type::U32), ("b".to_string(), Type::U32)],
        results: Results::Anon(Type::U32),
    }
}

fn calc_interface() -> Interface {
    Interface { name: "my-calc".to_string(), docs: no_docs(), functions: vec![add_fn()] }
}

#[test]
fn scalar_marshalling_names() {
    let p = Package { types: vec![], interfaces: vec![] };
    let g = Parsed(&p);
    let cases = [
        (Type::Bool, "Bool"),
        (Type::String, "String"),
        (Type::Char, "Uint32"),
        (Type::Float32, "Float"),
        (Type::Float64, "Double"),
        (Type::S8, "Int8"),
        (Type::S16, "Int16"),
        (Type::S32, "Int32"),
        (Type::S64, "Int64"),
        (Type::U8, "Uint8"),
        (Type::U16, "Uint16"),
        (Type::U32, "Uint32"),
        (Type::U64, "Uint64"),
    ];
    for (t, expected) in cases {
        assert_eq!(g.type_to_ffi(&t), Ok(expected.to_string()));
    }
}

#[test]
fn scalar_idiomatic_names() {
    let p = Package { types: vec![], interfaces: vec![] };
    let g = Parsed(&p);
    let cases = [
        (Type::Bool, "bool"),
        (Type::String, "String"),
        (Type::Char, "int /* Char */"),
        (Type::Float32, "double /* Float32 */"),
        (Type::Float64, "double /* Float64 */"),
        (Type::S8, "int /* S8 */"),
        (Type::S16, "int /* S16 */"),
        (Type::S32, "int /* S32 */"),
        (Type::S64, "int /* S64 */"),
        (Type::U8, "int /* U8 */"),
        (Type::U16, "int /* U16 */"),
        (Type::U32, "int /* U32 */"),
        (Type::U64, "int /* U64 */"),
    ];
    for (t, expected) in cases {
        assert_eq!(g.type_to_str(&t), Ok(expected.to_string()));
        assert_eq!(g.type_to_dart_definition(&t), Ok(String::new()));
    }
}

#[test]
fn scalar_names_ignore_the_package() {
    let empty = Package { types: vec![], interfaces: vec![] };
    let full = sample_package();
    for t in [Type::Bool, Type::Char, Type::U64, Type::Float32] {
        assert_eq!(Parsed(&empty).type_to_str(&t), Parsed(&full).type_to_str(&t));
        assert_eq!(Parsed(&empty).type_to_ffi(&t), Parsed(&full).type_to_ffi(&t));
    }
}

#[test]
fn case_and_type_identifiers() {
    let p = sample_package();
    let g = Parsed(&p);
    assert_eq!(g.type_to_str(&Type::Id(0)), Ok("MyType".to_string()));
    let def = g.type_to_dart_definition(&Type::Id(1)).unwrap();
    assert_eq!(def, "enum Color {myCase,other,}");
}

#[test]
fn record_definition() {
    let p = sample_package();
    let g = Parsed(&p);
    let def = g.type_def_to_definition(&p.types[0]).unwrap();
    assert_eq!(
        def,
        "class MyType {final int /* U32 */ count;final String label;const MyType({required this.count,required this.label,});}"
    );
    assert_eq!(def.matches("final ").count(), 2);
    assert_eq!(def.matches("required this.").count(), 2);
}

#[test]
fn variant_definition() {
    let p = sample_package();
    let g = Parsed(&p);
    let def = g.type_def_to_definition(&p.types[2]).unwrap();
    assert_eq!(
        def,
        "sealed class Shape {}class ShapeNone implements Shape { const ShapeNone(); }class ShapeCircle implements Shape { final int /* U32 */ value; const ShapeCircle(this.value); }"
    );
}

#[test]
fn union_definition() {
    let p = sample_package();
    let g = Parsed(&p);
    let def = g.type_def_to_definition(&p.types[5]).unwrap();
    assert_eq!(
        def,
        "sealed class Num {}class NumIntU32 implements Num { final int /* U32 */ value; const NumIntU32(this.value); }class NumString implements Num { final String value; const NumString(this.value); }"
    );
}

#[test]
fn flags_definition() {
    let p = sample_package();
    let g = Parsed(&p);
    let def = g.type_def_to_definition(&p.types[4]).unwrap();
    assert_eq!(def, "typedef Perms = int; class PermsFlag {static const read = 0;static const write = 1;}");
}

#[test]
fn flags_index_beyond_one_digit() {
    let flags: Vec<Flag> =
        (0..12).map(|i| Flag { name: format!("f{}", i), docs: no_docs() }).collect();
    let p = Package { types: vec![named("many", TypeDefKind::Flags(flags))], interfaces: vec![] };
    let def = Parsed(&p).type_def_to_definition(&p.types[0]).unwrap();
    assert!(def.contains("static const f10 = 10;static const f11 = 11;}"));
}

#[test]
fn tuple_names() {
    let p = sample_package();
    let g = Parsed(&p);
    assert_eq!(g.type_to_str(&Type::Id(3)), Ok("(int /* U8 */, bool)".to_string()));
    assert_eq!(g.type_to_ffi(&Type::Id(3)), Ok("(Uint8, Bool)".to_string()));
    assert_eq!(g.type_to_dart_definition(&Type::Id(3)), Ok(String::new()));
}

#[test]
fn structural_names() {
    let p = sample_package();
    let g = Parsed(&p);
    assert_eq!(g.type_to_str(&Type::Id(6)), Ok("MyType".to_string()));
    assert_eq!(g.type_to_str(&Type::Id(7)), Ok("Option<MyType>".to_string()));
    assert_eq!(g.type_to_str(&Type::Id(8)), Ok("Result<int /* U32 */, void>".to_string()));
    assert_eq!(g.type_to_str(&Type::Id(9)), Ok("List<String>".to_string()));
    assert_eq!(g.type_to_str(&Type::Id(10)), Ok("Future<void>".to_string()));
    assert_eq!(g.type_to_str(&Type::Id(11)), Ok("Stream<int /* S64 */>".to_string()));
    assert_eq!(g.type_to_ffi(&Type::Id(0)), Ok("my-type".to_string()));
    assert_eq!(g.type_to_ffi(&Type::Id(9)), Ok("List<String>".to_string()));
}

#[test]
fn alias_forwards_definition() {
    let p = sample_package();
    let g = Parsed(&p);
    let direct = g.type_def_to_definition(&p.types[0]).unwrap();
    assert_eq!(g.type_def_to_definition(&p.types[6]), Ok(direct.clone()));
    assert_eq!(g.type_to_dart_definition(&Type::Id(0)), Ok(direct));
    assert_eq!(g.type_def_to_name(&p.types[6]), Ok("MyType".to_string()));
}

#[test]
fn docs_precede_definitions() {
    let mut p = sample_package();
    p.types[1].docs = Docs { contents: Some("Colours.\nTwo of them".to_string()) };
    let def = Parsed(&p).type_def_to_definition(&p.types[1]).unwrap();
    assert_eq!(def, "/// Colours.\n/// Two of them\nenum Color {myCase,other,}");
}

#[test]
fn interface_declaration_mode() {
    let p = sample_package();
    let g = Parsed(&p);
    let mut s = String::new();
    g.add_interface(&mut s, "my-calc", &p.interfaces[0]).unwrap();
    assert_eq!(s, "class MyCalc {int /* U32 */ add(int /* U32 */ a,int /* U32 */ b);}");
    let mut all = String::new();
    g.add_interfaces(&mut all).unwrap();
    assert_eq!(all, s);
}

#[test]
fn function_call_mode() {
    let p = sample_package();
    let g = Parsed(&p);
    let mut s = String::new();
    g.add_function(&mut s, &add_fn(), FuncKind::MethodCall).unwrap();
    assert_eq!(
        s,
        "late final _add = lookup('add');int /* U32 */ add(int /* U32 */ a,int /* U32 */ b) {return _add(a, b);}"
    );
    assert_eq!(s.matches("lookup(").count(), 1);
}

#[test]
fn function_field_mode() {
    let p = sample_package();
    let g = Parsed(&p);
    let mut s = String::from("x");
    g.add_function(&mut s, &add_fn(), FuncKind::Field).unwrap();
    assert_eq!(s, "xfinal int /* U32 */ Function(int /* U32 */ a,int /* U32 */ b) add;");
}

#[test]
fn empty_results_render_void() {
    let p = sample_package();
    let g = Parsed(&p);
    let f = Function {
        name: "ping".to_string(),
        docs: Docs { contents: Some("Pings.".to_string()) },
        params: vec![],
        results: Results::Named(vec![]),
    };
    let mut s = String::new();
    g.add_function(&mut s, &f, FuncKind::Method).unwrap();
    assert_eq!(s, "/// Pings.\nvoid ping();");
}

#[test]
fn named_results_keep_order() {
    let p = sample_package();
    let g = Parsed(&p);
    let f = Function {
        name: "pair".to_string(),
        docs: no_docs(),
        params: vec![],
        results: Results::Named(vec![("x".to_string(), Type::S8), ("y".to_string(), Type::Bool)]),
    };
    let mut s = String::new();
    g.add_function(&mut s, &f, FuncKind::Method).unwrap();
    assert_eq!(s, "int /* S8 */ x,bool y pair();");
}

#[test]
fn generation_is_repeatable() {
    let p = sample_package();
    let first = Parsed(&p).generate().unwrap();
    let second = Parsed(&p).generate().unwrap();
    assert_eq!(first, second);
    assert!(first.ends_with("class MyCalc {int /* U32 */ add(int /* U32 */ a,int /* U32 */ b);}"));
}

#[test]
fn dangling_id_aborts() {
    let mut p = sample_package();
    let g = Parsed(&p);
    assert_eq!(g.type_to_str(&Type::Id(99)), Err(GenError::DanglingType(99)));
    assert_eq!(g.type_to_ffi(&Type::Id(99)), Err(GenError::DanglingType(99)));
    let mut f = add_fn();
    f.params[1].1 = Type::Id(99);
    let mut s = String::from("kept");
    assert_eq!(g.add_function(&mut s, &f, FuncKind::Method), Err(GenError::DanglingType(99)));
    assert_eq!(s, "kept");
    p.types.push(named("broken", TypeDefKind::Type(Type::Id(99))));
    assert_eq!(Parsed(&p).generate(), Err(GenError::DanglingType(99)));
}

#[test]
fn unknown_kind_aborts() {
    let mut p = sample_package();
    p.types.push(named("mystery", TypeDefKind::Unknown));
    let g = Parsed(&p);
    assert_eq!(g.type_to_str(&Type::Id(12)), Err(GenError::UnknownKind));
    assert_eq!(g.generate(), Err(GenError::UnknownKind));
}

#[test]
fn alias_cycle_aborts() {
    let p = Package {
        types: vec![named("a", TypeDefKind::Type(Type::Id(1))), named("b", TypeDefKind::Type(Type::Id(0)))],
        interfaces: vec![],
    };
    let g = Parsed(&p);
    assert_eq!(g.type_to_str(&Type::Id(0)), Err(GenError::ReferenceCycle));
    assert_eq!(g.generate(), Err(GenError::ReferenceCycle));
}

#[test]
fn builders_take_the_converted_name() {
    let p = sample_package();
    let g = Parsed(&p);
    let name = "Counter".to_string();
    let fields = vec![field("count", Type::U32), field("label", Type::String)];
    assert_eq!(
        g.record_definition(&name, &fields),
        Ok("class Counter {final int /* U32 */ count;final String label;const Counter({required this.count,required this.label,});}".to_string())
    );
    assert_eq!(Parsed::flags_definition(&"P".to_string(), &vec![]), "typedef P = int; class PFlag {}");
    assert_eq!(
        Parsed::enum_definition(&"E".to_string(), &vec![EnumCase { name: "big-one".to_string(), docs: no_docs() }]),
        "enum E {bigOne,}"
    );
    assert_eq!(g.union_definition(&"U".to_string(), &vec![]), Ok("sealed class U {}".to_string()));
    assert_eq!(
        g.variant_definition(
            &"V".to_string(),
            &vec![Case { name: "empty".to_string(), ty: None, docs: no_docs() }]
        ),
        Ok("sealed class V {}class VEmpty implements V { const VEmpty(); }".to_string())
    );
    assert_eq!(
        g.union_definition(&"U".to_string(), &vec![UnionCase { ty: Type::Id(42), docs: no_docs() }]),
        Err(GenError::DanglingType(42))
    );
}
