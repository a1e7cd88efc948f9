use z80_assembler::domain::enums::{Condition, ShortReg, WideReg};
use z80_assembler::domain::{Argument, Constant, Instruction, Label, ParseItem};
use z80_assembler::parser::tokenizer::BufferedTokenizer;
use z80_assembler::parser::{ParseError, Parser, TokenValue};

fn parse_all(source: &str) -> Vec<ParseItem> {
    let mut tokenizer = BufferedTokenizer::new(source, 0);
    let mut parser = Parser::new();
    let mut res = vec![];
    loop {
        if let Some(pi) = parser.parse_next(&mut tokenizer).unwrap() {
            res.push(pi);
        } else {
            break;
        }
    }
    res
}

#[test]
fn test_parse1() {
    let res = parse_all(
        r#"
.label1:
ld A, 10h
add b, 8h"#,
    );

    if let ParseItem::Label(label) = res.get(0).unwrap() {
        assert_eq!(label.name, "label1");
    } else {
        panic!()
    }

    if let ParseItem::Instruction(inst1) = res.get(1).unwrap() {
        assert_eq!(inst1.opcode, "ld");
        assert_eq!(inst1.arg0, Argument::ShortReg(ShortReg::A));
        assert_eq!(inst1.arg1, Argument::Value(16));
    } else {
        panic!()
    }

    if let ParseItem::Instruction(inst2) = res.get(2).unwrap() {
        assert_eq!(inst2.opcode, "add");
        assert_eq!(inst2.arg0, Argument::ShortReg(ShortReg::B));
        assert_eq!(inst2.arg1, Argument::Value(8));
    } else {
        panic!()
    }
}

#[test]
fn test_parse_address_reg_argument() {
    let res = parse_all("ld A, (HL)");
    assert_eq!(
        ParseItem::Instruction(Instruction {
            opcode: "ld".to_string(),
            arg0: Argument::ShortReg(ShortReg::A),
            arg1: Argument::WideRegAddress(WideReg::HL),
            line: 1,
            file_id: 0,
        }),
        *res.get(0).unwrap()
    );
}

#[test]
fn test_parse_address_reg_argument_with_offset() {
    let res = parse_all("ld A, (IX + 15h)");
    assert_eq!(
        ParseItem::Instruction(Instruction {
            opcode: "ld".to_string(),
            arg0: Argument::ShortReg(ShortReg::A),
            arg1: Argument::RegOffsetAddress(WideReg::IX, 21),
            line: 1,
            file_id: 0,
        }),
        *res.get(0).unwrap()
    );
}

#[test]
fn test_parse_address() {
    let res = parse_all("ld BC, (A2C5h)");
    assert_eq!(
        ParseItem::Instruction(Instruction {
            opcode: "ld".to_string(),
            arg0: Argument::WideReg(WideReg::BC),
            arg1: Argument::DirectAddress(41669),
            line: 1,
            file_id: 0,
        }),
        *res.get(0).unwrap()
    );
}

#[test]
fn test_parse_label_instr_same_line() {
    let res = parse_all(".my_label: ADD A, A9h");
    assert_eq!(
        ParseItem::Label(Label {
            name: "my_label".to_string(),
            line: 1,
            file_id: 0,
        }),
        *res.get(0).unwrap()
    );
    assert_eq!(
        ParseItem::Instruction(Instruction {
            opcode: "add".to_string(),
            arg0: Argument::ShortReg(ShortReg::A),
            arg1: Argument::Value(169),
            line: 1,
            file_id: 0,
        }),
        *res.get(1).unwrap()
    );
}

#[test]
fn test_parse_label_argument() {
    let res = parse_all(
        r#"
CALL &label1
LD BC, *label2
"#,
    );
    assert_eq!(
        ParseItem::Instruction(Instruction {
            opcode: "call".to_string(),
            arg0: Argument::LabelAddress("label1".to_string()),
            arg1: Argument::Empty,
            line: 2,
            file_id: 0,
        }),
        *res.get(0).unwrap()
    );
    assert_eq!(
        ParseItem::Instruction(Instruction {
            opcode: "ld".to_string(),
            arg0: Argument::WideReg(WideReg::BC),
            arg1: Argument::LabelValue("label2".to_string()),
            line: 3,
            file_id: 0,
        }),
        *res.get(1).unwrap()
    );
}

#[test]
fn test_parse_condition() {
    let res = parse_all(
        r#"
CALL C, *label1
JP PO, 1234h
JR NZ, a7h
RET M
"#,
    );
    assert_eq!(
        ParseItem::Instruction(Instruction {
            opcode: "call".to_string(),
            arg0: Argument::Condition(Condition::C),
            arg1: Argument::LabelValue("label1".to_string()),
            line: 2,
            file_id: 0,
        }),
        *res.get(0).unwrap()
    );
    assert_eq!(
        ParseItem::Instruction(Instruction {
            opcode: "jp".to_string(),
            arg0: Argument::Condition(Condition::PO),
            arg1: Argument::Value(4660),
            line: 3,
            file_id: 0,
        }),
        *res.get(1).unwrap()
    );
    assert_eq!(
        ParseItem::Instruction(Instruction {
            opcode: "jr".to_string(),
            arg0: Argument::Condition(Condition::NZ),
            arg1: Argument::Value(167),
            line: 4,
            file_id: 0,
        }),
        *res.get(2).unwrap()
    );
    assert_eq!(
        ParseItem::Instruction(Instruction {
            opcode: "ret".to_string(),
            arg0: Argument::Condition(Condition::M),
            arg1: Argument::Empty,
            line: 5,
            file_id: 0,
        }),
        *res.get(3).unwrap()
    );
}

#[test]
fn test_parse_data() {
    let res = parse_all(
        r#"
.data1: 15h
.data2: aa15h"#,
    );
    assert_eq!(ParseItem::Data(vec![21u8]), *res.get(1).unwrap());
    assert_eq!(ParseItem::Data(vec![21u8, 170u8]), *res.get(3).unwrap());
}

#[test]
fn test_parse_constants() {
    let res = parse_all(
        r#"
@const1: 15h
add a, @const1"#,
    );
    assert_eq!(
        ParseItem::Constant(Constant {
            name: "const1".to_string(),
            value: 21,
        }),
        *res.get(0).unwrap()
    );
    assert_eq!(
        ParseItem::Instruction(Instruction {
            opcode: "add".to_string(),
            arg0: Argument::ShortReg(ShortReg::A),
            arg1: Argument::Constant("const1".to_string()),
            line: 3,
            file_id: 0,
        }),
        *res.get(1).unwrap()
    );
}

// A quote is no token of the surface syntax, so a directive line that
// carries one stops the parser with the offending character.
#[test]
fn test_parse_directives() {
    let source = r#"
#include "test.z80"
#test dir 123
"#;
    let mut tokenizer = BufferedTokenizer::new(source, 0);
    let mut parser = Parser::new();
    let err = parser.parse_next(&mut tokenizer).unwrap_err();
    assert_eq!(ParseError::UnexpectedChar('"', 2), err);
}

// A directive item carries the directive word and the rest of its line as
// tokens.
#[test]
fn test_parse_directive_tokens() {
    let res = parse_all("#defm mac arg1, arg2\n");
    if let ParseItem::Directive(cmd, tokens) = res.get(0).unwrap() {
        assert_eq!(cmd, "#defm");
        assert_eq!(4, tokens.len());
        assert_eq!(TokenValue::Identifier("mac".to_string()), tokens[0].token);
        assert_eq!(TokenValue::Identifier("arg1".to_string()), tokens[1].token);
        assert_eq!(TokenValue::Comma, tokens[2].token);
        assert_eq!(TokenValue::Identifier("arg2".to_string()), tokens[3].token);
    } else {
        panic!()
    }
}
