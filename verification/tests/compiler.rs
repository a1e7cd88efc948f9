use z80_assembler::compiler::instructions::{CompileError, CompileErrorType};
use z80_assembler::domain::Argument;
use z80_assembler::{Compiler, InMemorySourceProvider, SourceHeader};

fn compiler_for(source: &str, capacity: usize) -> Compiler<InMemorySourceProvider> {
    Compiler::new(
        InMemorySourceProvider {
            files: vec![(
                SourceHeader {
                    filename: "main.z80".to_string(),
                },
                source.to_string(),
            )],
        },
        capacity,
    )
}

fn compare_memory(expected: Vec<u8>, actual: Vec<u8>) {
    assert!(actual.len() >= expected.len());
    for (ia, a) in actual.iter().enumerate() {
        match expected.get(ia) {
            None => {
                assert_eq!(0, *a, "position {}", ia);
            }
            Some(e) => {
                assert_eq!(*e, *a, "position {}", ia);
            }
        }
    }
}

#[test]
fn test_compile_inst_1() {
    let compiler = compiler_for(r#"
ld A, C
ld b, 12h
"#, 1024);

    compare_memory(
        vec![
            0b01111001,
            0b00000110,
            0b00010010
        ],
        compiler.compile().unwrap(),
    );
}

#[test]
fn test_compile_labels() {
    let compiler = compiler_for(r#"
.label1: 12h
.label2: 13h
.label3: 14h
.label4: 15h
ld b, *label3
ld a, &label4
ld a, (BC)
ld a, (DE)
ld a, (ABCDh)
ld a, (HL)
ld e, (IX + 5h)
ld l, (IY + a3h)
"#, 128);

    compare_memory(
        vec![
            0b00010010, // label1
            0b00010011, // label2
            0b00010100, // label3
            0b00010101, // label4
            0b00000110, // ld b, *label3
            0b00010100,
            0b00111010, // ld a, &label4
            0b00000011,
            0b00000000,
            0b00001010, // ld a, (BC)
            0b00011010, // ld a, (DE)
            0b00111010, // ld a, (ABCDh)
            0b11001101,
            0b10101011,
            0b01111110, // ld a, (HL)
            0b11011101, // ld e, (IX + 5h)
            0b01011110,
            0b00000101,
            0b11111101, // ld l, (IY + a3h)
            0b01101110,
            0b10100011,
        ],
        compiler.compile().unwrap(),
    );
}

#[test]
fn label_not_found_error() {
    let compiler = compiler_for(
        r#"
.label1: 12h
ld a, *missing_label
"#,
        1024,
    );

    assert_eq!(
        CompileError {
            error: CompileErrorType::LabelNotFound("missing_label".to_string(), 3),
            instr: None,
        },
        compiler.compile().unwrap_err()
    )
}

#[test]
fn test_compile_wide_registers() {
    let compiler = compiler_for(r#"
ld HL, 1234h
ld IX, 2345h
"#, 1024);

    compare_memory(
        vec![
            0b00100001,
            0b00110100,
            0b00010010,
            0b11011101,
            0b00100001,
            0b01000101,
            0b00100011,
        ],
        compiler.compile().unwrap(),
    );
}

#[test]
fn test_compile_constants() {
    let compiler = compiler_for(r#"
@const1: 2345h
@const2: 23h
ld IX, @const1
LD A, @const2
"#, 1024);

    compare_memory(
        vec![
            0b11011101,
            0b00100001,
            0b01000101,
            0b00100011,
            0b00111110,
            0b00100011,
        ],
        compiler.compile().unwrap(),
    );
}

#[test]
fn test_compile_rst() {
    let compiler = compiler_for(r#"
@const1: 18h
RST @const1
RST 30h
RST 0h
"#, 1024);

    compare_memory(
        vec![
            0b11011111,
            0b11110111,
            0b11000111,
        ],
        compiler.compile().unwrap(),
    );
}

#[test]
fn test_compile_djnz() {
    let compiler = compiler_for(r#"
@Inbuf:  A000h
@Outbuf: A100h
        LD   C,    80h        ;Set up counter
        LD   HL,   @Inbuf     ;Set up pointers
        LD   DE,   @Outbuf
.LOOP:  LD   A,    (HL)       ;Get next byte from
                              ;input buffer
        LD   (DE), A          ;Store in output buffer
        CP   0Dh              ;Is it a CR?
        JR   Z,    &DONE      ;Yes finished
        INC  HL               ;Increment pointers
        INC  DE
        DJNZ &LOOP             ;Loop back if 80
                              ;bytes have not
                              ;been moved
.DONE:
"#, 1024);

    compare_memory(
        vec![
            0b00001110, // LD C, 80h
            0x80,
            0b00100001, // LD HL, @Inbuf
            0x00,
            0xA0,
            0b00010001, // LD DE, @Outbuf
            0x00,
            0xA1,
            0b01111110, // LD A, (HL)    .LOOP:
            0x12,       // LD (DE), A
            0xFE,       // CP 0Dh
            0x0D,
            0x28,       // JR Z, &DONE
            4,
            0b00100011, // INC HL
            0b00010011, // INC DE
            0x10,       // DJNZ &LOOP
            -10i8 as u8,
        ],
        compiler.compile().unwrap(),
    );
}

#[test]
fn test_compile_16bit_multiplication() {
    let compiler = compiler_for(r#"
.Mult16:
            LD   B,   10h           ; number of bits init
            LD   C,   D             ; move multiplier
            LD   A,   E             ;
            EX   DE,  HL            ; move multiplicand
            LD   HL,  0h            ; clear partial result
.mloop:     SRL  C                  ; shift multiplier right
            RRA                     ; least-significat bit is in carry
            JR   NC,  &noadd        ; skip add if no carry
            ADD  HL,  DE            ; else add multiplicand to partialresult
.noadd:     EX   DE,  HL            ; shift multiplicand left
            ADD  HL,  HL            ; by multiplying it by two
            EX   DE,  HL            ;
            DJNZ &mloop             ; repeat until no more bits
            RET                     ;
"#, 1024);

    compare_memory(
        vec![
            0x06, 0x10,
            0x4A,
            0x7B,
            0xEB,
            0x21, 0x00, 0x00,
            0xCB, 0x39,
            0x1F,
            0x30, 0x01,
            0x19,
            0xEB,
            0x29,
            0xEB,
            0x10, 0xF5,
            0xC9,
        ],
        compiler.compile().unwrap(),
    );
}

#[test]
fn test_compile_bubble_sort() {
    let compiler = compiler_for(r#"
.BSort:
@flag:  0h
            LD   &data, HL          ; save data address
.loop:      RES  @flag, H           ; initialize exchange flag
            LD   B,     C           ; initialize length counter
            DEC  B                  ; adjust for testing
            LD   IX,    &data       ; initialize array pointer
.next:      LD   A,     (IX)        ; first element in comparison
            LD   D,     A           ; temporary storage for element
            LD   E,     (IX+1h)     ; second element in comparison
            SUB  E                  ; comparison first to second
            JR   NC,    &noex       ; if first > second, no jump
            LD   (IX),  E           ; exchange array elements
            LD   (IX+1h), D
            SET  @flag, H           ; record exchange occurred
.noex:      INC  IX                 ; point to next data element
            DJNZ &next              ; count number of comparisons, repeat if more data pairs
            BIT  @flag, H           ; etermine if exchange occurred
            JR   NZ, &loop          ; continue if data unsorted
            RET

.data:      0000h
.test:      01h
"#, 1024);

    compare_memory(
        vec![
            0x22, 0x26, 0x00,
            0xCB, 0x84,
            0x41,
            0x05,
            0xDD, 0x2A, 0x26, 0x00,
            0xDD, 0x7E, 0x00,
            0x57,
            0xDD, 0x5E, 0x01,
            0x93,
            0x30, 0x08,
            0xDD, 0x73, 0x00,
            0xDD, 0x72, 0x01,
            0xCB, 0xC4,
            0xDD, 0x23,
            0x10, 0xEA,
            0xCB, 0x44,
            0x20, 0xDE,
            0xC9,
            0x00, 0x00,
            0x01,
        ],
        compiler.compile().unwrap(),
    );
}

#[test]
fn test_macros_1() {
    let compiler = compiler_for(r#"
#defm nested arg1, arg2
ld arg1, arg2
#endm

#defm macro123 arg1, arg2, arg3, arg4
#exec nested arg1, arg4    ; ld A, (IX + 5h)
#exec nested arg3, arg2    ; ld (hl), C
#endm

#exec macro123 A, C, (hl), (IX + 5h)
"#, 1024);

    compare_memory(
        vec![
            0xDD,
            0b01111110,
            0b00000101,
            0b01110001,
        ],
        compiler.compile().unwrap(),
    );
}

// Assembling the same source twice yields byte-identical output.
#[test]
fn test_deterministic_output() {
    let source = r#"
.start: ld HL, 1234h
jp &start
"#;
    let first = compiler_for(source, 256).compile().unwrap();
    let second = compiler_for(source, 256).compile().unwrap();
    assert_eq!(first, second);
}

// 16-bit immediates and absolute addresses land low byte first.
#[test]
fn test_little_endian_layout() {
    let out = compiler_for("jp (ABCDh)\nld HL, (1234h)\n", 64).compile().unwrap();
    assert_eq!(&[0xC3, 0xCD, 0xAB, 0x2A, 0x34, 0x12], &out[..6]);
}

// An upper-case mnemonic assembles exactly like its lower-case form.
#[test]
fn test_uppercase_mnemonics() {
    let lower = compiler_for("ld a, c\n", 16).compile().unwrap();
    let upper = compiler_for("LD A, C\n", 16).compile().unwrap();
    assert_eq!(lower, upper);
}

// A relative jump whose target is too far away is refused.
#[test]
fn test_relative_jump_out_of_range() {
    let mut source = String::from(".far: nop\n");
    for _ in 0..200 {
        source.push_str("nop\n");
    }
    source.push_str("djnz &far\n");
    let err = compiler_for(source.as_str(), 1024).compile().unwrap_err();
    assert!(matches!(
        err.error,
        CompileErrorType::UnableToCalculateRelativeJump(_)
    ));
}

// A value-of-label placeholder that no encoding finalizes is reported, not
// patched from garbage.
#[test]
fn test_undefined_placeholder_reported() {
    let err = compiler_for(".a: 12h\nrst *a\n", 64).compile().unwrap_err();
    assert!(matches!(
        err.error,
        CompileErrorType::UndefinedPlaceholder(_)
    ));
}

#[test]
fn test_constant_not_found() {
    let err = compiler_for("ld A, @nope\n", 64).compile().unwrap_err();
    assert!(matches!(err.error, CompileErrorType::ConstantNotFound(_)));
}

#[test]
fn test_expected_short_argument() {
    let err = compiler_for("ld b, 1234h\n", 64).compile().unwrap_err();
    assert_eq!(CompileErrorType::ExpectedShortArgument(1, 4660), err.error);
}

#[test]
fn test_expected_bit_argument() {
    let err = compiler_for("bit 9h, A\n", 64).compile().unwrap_err();
    assert_eq!(CompileErrorType::ExpectedBitArgument(0, 9), err.error);
}

#[test]
fn test_unimplemented_instruction() {
    let err = compiler_for("frob A, B\n", 64).compile().unwrap_err();
    assert_eq!(CompileErrorType::UnimplementedInstruction, err.error);
}

#[test]
fn test_unexpected_argument() {
    let err = compiler_for("nop 5h\n", 64).compile().unwrap_err();
    assert_eq!(
        CompileErrorType::UnexpectedArgument(Argument::Value(5)),
        err.error
    );
}

#[test]
fn test_macro_not_found() {
    let err = compiler_for("#exec nope\n", 64).compile().unwrap_err();
    assert_eq!(
        CompileErrorType::MacroNotFound("nope".to_string()),
        err.error
    );
}

#[test]
fn test_unknown_directive() {
    let err = compiler_for("#frobnicate now\n", 64).compile().unwrap_err();
    assert_eq!(
        CompileErrorType::UnknownDirective("#frobnicate".to_string()),
        err.error
    );
}

#[test]
fn test_unterminated_macro() {
    let err = compiler_for("#defm mac a\nld a, a\n", 64).compile().unwrap_err();
    assert!(matches!(err.error, CompileErrorType::ParseError(_)));
}

#[test]
fn test_output_overflow() {
    let err = compiler_for("ld HL, 1234h\n", 2).compile().unwrap_err();
    assert_eq!(CompileErrorType::OutputOverflow(0), err.error);
}

// The write cursor ends at the sum of the encoded lengths: 3 data bytes and
// a 3-byte instruction fill positions 0 to 5, and nothing else is touched.
#[test]
fn test_length_conservation_concrete() {
    let out = compiler_for(".d: 12h\n.e: 3456h\nld HL, 789Ah\n", 32)
        .compile()
        .unwrap();
    assert_eq!(32, out.len());
    assert_eq!(&[0x12, 0x56, 0x34, 0x21, 0x9A, 0x78], &out[..6]);
    assert!(out[6..].iter().all(|b| *b == 0));
}

// Constants are file-scoped: a second file no longer sees them.
#[test]
fn test_constants_cleared_per_file() {
    let compiler = Compiler::new(
        InMemorySourceProvider {
            files: vec![
                (
                    SourceHeader {
                        filename: "one.z80".to_string(),
                    },
                    "@c1: 18h\nRST @c1\n".to_string(),
                ),
                (
                    SourceHeader {
                        filename: "two.z80".to_string(),
                    },
                    "RST @c1\n".to_string(),
                ),
            ],
        },
        64,
    );
    let err = compiler.compile().unwrap_err();
    assert_eq!(
        CompileErrorType::ConstantNotFound("c1".to_string()),
        err.error
    );
}

// Labels are global across files.
#[test]
fn test_labels_global_across_files() {
    let compiler = Compiler::new(
        InMemorySourceProvider {
            files: vec![
                (
                    SourceHeader {
                        filename: "one.z80".to_string(),
                    },
                    "jp &entry\n".to_string(),
                ),
                (
                    SourceHeader {
                        filename: "two.z80".to_string(),
                    },
                    ".entry: ret\n".to_string(),
                ),
            ],
        },
        64,
    );
    let out = compiler.compile().unwrap();
    assert_eq!(&[0xC3, 0x03, 0x00, 0xC9], &out[..4]);
}

// The register field of inc/dec sits in bits 3 to 5; dec IX/IY is DD/FD 2B.
#[test]
fn test_inc_dec_registers() {
    let out = compiler_for("inc a\ndec a\ndec IX\ndec IY\n", 16).compile().unwrap();
    assert_eq!(&[0x3C, 0x3D, 0xDD, 0x2B, 0xFD, 0x2B], &out[..6]);
}

// Indexed bit operations keep the 0b110 operand field in their fourth byte.
#[test]
fn test_bit_indexed() {
    let out = compiler_for("bit 1h, (IX + 2h)\nset 0h, (IY + 3h)\nres 7h, (IX + 4h)\n", 16)
        .compile()
        .unwrap();
    assert_eq!(
        &[0xDD, 0xCB, 0x02, 0x4E, 0xFD, 0xCB, 0x03, 0xC6, 0xDD, 0xCB, 0x04, 0xBE],
        &out[..12]
    );
}

// Unconditional jr is a two-byte relative jump, patched like djnz.
#[test]
fn test_unconditional_jr() {
    let out = compiler_for(".l: nop\njr &l\n", 16).compile().unwrap();
    assert_eq!(&[0x00, 0x18, -3i8 as u8], &out[..3]);
}

// The port operand of out (n),A is arg0; its value-of-label placeholder is
// finalized and patched.
#[test]
fn test_out_label_port() {
    let out = compiler_for(".x: 25h\nout *x, A\n", 16).compile().unwrap();
    assert_eq!(&[0x25, 0xD3, 0x25], &out[..3]);
}

// im encodes no immediate, so a value-of-label mode operand is never
// finalized and is reported at fix-up.
#[test]
fn test_im_modes() {
    let out = compiler_for("im 0h\nim 1h\nim 2h\n", 16).compile().unwrap();
    assert_eq!(&[0xED, 0x46, 0xED, 0x56, 0xED, 0x5E], &out[..6]);
    let err = compiler_for(".x: 12h\nim *x\n", 16).compile().unwrap_err();
    assert!(matches!(
        err.error,
        CompileErrorType::UndefinedPlaceholder(_)
    ));
}
