use jdecomp::class::generate_signature_code;
use jdecomp::classfile::{
    AttributePool, ClassFile, FieldInfo, FieldPool, InterfacePool, MethodInfo, MethodPool,
};
use jdecomp::codegen::generate_code;
use jdecomp::field::generate_field_signature;
use jdecomp::instruction::parse;
use jdecomp::method::Method;
use jdecomp::codegen::store::{decompile_store_instruction, get_var};
use jdecomp::codegen::value::{get_cp_value, get_value};
use jdecomp::constant_pool::{CPIndexType, ConstantPool};
use jdecomp::error::DecompileError;
use jdecomp::instruction::Instruction;
use jdecomp::jtype::Type;
use jdecomp::value::get_type;
use jdecomp::variable::{MethodInformation, Variable};

fn empty_pool() -> ConstantPool {
    ConstantPool::new(1, Vec::new())
}

fn static_two_args() -> MethodInformation {
    MethodInformation { is_static: true, arg_count: 2 }
}

#[test]
fn binary_operand_order_is_lifo() {
    // push A; push B; add renders A + B, never B + A
    let pool = empty_pool();
    let mi = static_two_args();
    let mut stack = vec![Instruction::ILoad0, Instruction::ILoad1, Instruction::IAdd];
    let (text, ty) = get_value(&mut stack, &pool, &mi).unwrap();
    assert_eq!(text, "arg0 + arg1");
    assert_eq!(ty.display_name(), "int");
    assert!(stack.is_empty());
}

#[test]
fn round_trip_two_arg_add() {
    // iload_0; iload_1; iadd; ireturn for a static int m(int a, int b)
    let pool = empty_pool();
    let mi = static_two_args();
    let instrs = vec![
        Instruction::ILoad0,
        Instruction::ILoad1,
        Instruction::IAdd,
        Instruction::IReturn,
    ];
    let code = generate_code(&instrs, &pool, &mi).unwrap();
    assert!(code.contains("return arg0 + arg1;"));
}

#[test]
fn slot_naming_static_two_args() {
    let pool = empty_pool();
    let mi = static_two_args();
    for (ins, expect) in [
        (Instruction::ILoad0, "arg0"),
        (Instruction::ILoad1, "arg1"),
        (Instruction::ILoad2, "var2"),
    ] {
        let mut stack = vec![ins];
        let (text, _) = get_value(&mut stack, &pool, &mi).unwrap();
        assert_eq!(text, expect);
    }
}

#[test]
fn slot_naming_instance_this() {
    let pool = empty_pool();
    let mi = MethodInformation { is_static: false, arg_count: 1 };
    let mut stack = vec![Instruction::ALoad0];
    let (text, _) = get_value(&mut stack, &pool, &mi).unwrap();
    assert_eq!(text, "this");
}

#[test]
fn array_store_ordering() {
    // push arr; push idx; push val; iastore renders arr[idx] = val;
    let pool = empty_pool();
    let mi = static_two_args();
    let mut stack = vec![Instruction::ALoad0, Instruction::ILoad1, Instruction::IConst5];
    let mut table: Vec<Variable> = Vec::new();
    let code = decompile_store_instruction(
        &Instruction::IAStore,
        &mut stack,
        &pool,
        &mi,
        &mut table,
    )
    .unwrap();
    assert_eq!(code, "arg0[arg1] = 5;\n");
}

#[test]
fn string_constant_decodes_idempotently() {
    // decoding the same String pool index twice yields identical quoted text
    let pool = ConstantPool::new(
        3,
        vec![
            CPIndexType::String(2),
            CPIndexType::Utf8("hello".to_string()),
        ],
    );
    let (first, _) = get_cp_value(1, &pool).unwrap();
    let (second, _) = get_cp_value(1, &pool).unwrap();
    assert_eq!(first, "\"hello\"");
    assert_eq!(first, second);
}

#[test]
fn wide_pop_spares_second_value_for_long() {
    // stack: Long value below, Int value on top -> pop2 pops both;
    // a Long on top is popped alone.
    let pool = empty_pool();
    let mi = static_two_args();
    let instrs = vec![
        Instruction::LConst0,
        Instruction::IConst1,
        Instruction::Pop2,
        Instruction::Return,
    ];
    let code = generate_code(&instrs, &pool, &mi).unwrap();
    // both values consumed: no leftover-stack diagnostic
    assert!(!code.contains("Instructions Stack is not empty"));

    let instrs2 = vec![
        Instruction::LConst0,
        Instruction::LConst1,
        Instruction::Pop2,
        Instruction::Return,
    ];
    let code2 = generate_code(&instrs2, &pool, &mi).unwrap();
    // the long on top was popped alone; one deferred value remains
    assert!(code2.contains("Instructions Stack is not empty"));
}

#[test]
fn unsupported_opcode_fails_the_unit() {
    let pool = empty_pool();
    let mi = static_two_args();
    // dup has no authored reconstruction rule: consuming it must fail,
    // producing no partial text
    let instrs = vec![Instruction::IConst1, Instruction::Dup, Instruction::IReturn];
    assert_eq!(
        generate_code(&instrs, &pool, &mi),
        Err(DecompileError::UnsupportedOpcode)
    );
}

#[test]
fn empty_stack_underflows() {
    let pool = empty_pool();
    let mi = static_two_args();
    let mut stack: Vec<Instruction> = Vec::new();
    assert!(matches!(
        get_value(&mut stack, &pool, &mi),
        Err(DecompileError::StackUnderflow)
    ));
}

#[test]
fn descriptor_decoding() {
    assert_eq!(get_type("I".to_string()).unwrap(), "int");
    assert_eq!(get_type("[[J".to_string()).unwrap(), "long[][]");
    assert_eq!(
        get_type("Ljava/lang/String;".to_string()).unwrap(),
        "java.lang.String"
    );
    assert_eq!(
        get_type("Q".to_string()),
        Err(DecompileError::InvalidDescriptor)
    );
    assert_eq!(
        get_type(String::new()),
        Err(DecompileError::InvalidDescriptor)
    );
}

#[test]
fn first_store_declares_typed_local() {
    let pool = empty_pool();
    let mi = static_two_args();
    let instrs = vec![
        Instruction::IConst3,
        Instruction::IStore2,
        Instruction::IConst4,
        Instruction::IStore2,
        Instruction::Return,
    ];
    let code = generate_code(&instrs, &pool, &mi).unwrap();
    assert!(code.contains("int var2 = 3;\n"));
    assert!(code.contains("\nvar2 = 4;\n"));
}

#[test]
fn field_write_qualifies_owner() {
    let pool = ConstantPool::new(
        7,
        vec![
            CPIndexType::FieldRef {
                class_index: 2,
                name_and_type_index: 4,
            },
            CPIndexType::Class(3),
            CPIndexType::Utf8("com/example/Widget".to_string()),
            CPIndexType::NameAndType {
                name_index: 5,
                descriptor_index: 6,
            },
            CPIndexType::Utf8("count".to_string()),
            CPIndexType::Utf8("I".to_string()),
        ],
    );
    let mi = static_two_args();
    let instrs = vec![
        Instruction::IConst2,
        Instruction::PutStatic(1),
        Instruction::Return,
    ];
    let code = generate_code(&instrs, &pool, &mi).unwrap();
    assert!(code.contains("com/example/Widget.count = 2;\n"));
}

#[test]
fn get_var_names_argument_range_without_declaration() {
    let mi = MethodInformation { is_static: false, arg_count: 2 };
    let mut table: Vec<Variable> = Vec::new();
    let v = ("x".to_string(), Type::Int);
    assert_eq!(get_var(&mi, &mut table, &v, 0), "this");
    assert_eq!(get_var(&mi, &mut table, &v, 1), "arg1");
    assert!(table.is_empty());
    assert_eq!(get_var(&mi, &mut table, &v, 3), "int var3");
    assert_eq!(table.len(), 1);
    assert_eq!(get_var(&mi, &mut table, &v, 3), "var3");
}

#[test]
fn negative_constants_render_signed() {
    let pool = empty_pool();
    let mi = static_two_args();
    let mut stack = vec![Instruction::BiPush(-7)];
    let (text, ty) = get_value(&mut stack, &pool, &mi).unwrap();
    assert_eq!(text, "-7");
    assert_eq!(ty.display_name(), "byte");
}

#[test]
fn cast_targets_declared_type() {
    let pool = empty_pool();
    let mi = static_two_args();
    let mut stack = vec![Instruction::ILoad0, Instruction::I2B];
    let (text, ty) = get_value(&mut stack, &pool, &mi).unwrap();
    assert_eq!(text, "(byte) arg0");
    assert_eq!(ty.display_name(), "byte");
}

#[test]
fn class_signature_renders_keywords_and_names() {
    let pool = ConstantPool::new(
        5,
        vec![
            CPIndexType::Class(2),
            CPIndexType::Utf8("com/example/Widget".to_string()),
            CPIndexType::Class(4),
            CPIndexType::Utf8("java/lang/Object".to_string()),
        ],
    );
    let class_file = ClassFile {
        magic: 0xCAFEBABE,
        minor: 0,
        major: 52,
        constant_pool: pool,
        access_flags: 0x0021, // public, super
        this_class: 1,
        super_class: 3,
        interfaces: InterfacePool { interface_count: 0, interfaces: Vec::new() },
        fields: FieldPool { field_count: 0, fields: Vec::new() },
        methods: MethodPool { method_count: 0, methods: Vec::new() },
        attributes: AttributePool { attribute_count: 0, attributes: Vec::new() },
    };
    let sig = generate_signature_code(&class_file).unwrap();
    assert_eq!(sig, "public class Widget extends java.lang.Object ");
}

#[test]
fn field_signature_renders_flags_type_and_name() {
    let pool = ConstantPool::new(
        3,
        vec![
            CPIndexType::Utf8("count".to_string()),
            CPIndexType::Utf8("I".to_string()),
        ],
    );
    let field = FieldInfo {
        access_flags: 0x001A, // private static final
        name_index: 1,
        descriptor_index: 2,
        attributes_count: 0,
        attributes: Vec::new(),
    };
    let sig = generate_field_signature(&field, &pool).unwrap();
    assert_eq!(sig, "private static final int count");
}

#[test]
fn method_header_renders_args_and_throws() {
    let pool = ConstantPool::new(
        6,
        vec![
            CPIndexType::Class(2),
            CPIndexType::Utf8("com/example/Widget".to_string()),
            CPIndexType::Utf8("sum".to_string()),
            CPIndexType::Utf8("(IJ)I".to_string()),
        ],
    );
    let info = MethodInfo {
        access_flags: 0x0009, // public static
        name_index: 3,
        descriptor_index: 4,
        attributes_count: 0,
        attributes: Vec::new(),
    };
    let mut method = Method::new(1, &info, &pool);
    let sig = method.get_method_signature().unwrap();
    assert_eq!(sig, "public static int sum(int arg0, long arg1)");
    assert!(method.is_static);
    assert_eq!(method.arg_count, 2);
}

#[test]
fn bytecode_parses_into_instructions() {
    // iload_0; iload_1; iadd; ireturn
    let code = vec![0x1a, 0x1b, 0x60, 0xac];
    let instrs = parse(&code).unwrap();
    assert_eq!(
        instrs,
        vec![
            Instruction::ILoad0,
            Instruction::ILoad1,
            Instruction::IAdd,
            Instruction::IReturn,
        ]
    );
    // an opcode with no authored case fails the unit
    assert!(matches!(
        parse(&vec![0xa7, 0x00, 0x03]), // goto
        Err(DecompileError::UnsupportedOpcode)
    ));
}
