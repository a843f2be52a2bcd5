use bil::{
    BinOpType, Bitvector, ByteSize, CastType, Endianness, Expression, IrBinOpType, IrCastOpType,
    IrExpression, IrUnOpType, IrVariable, Type, UnOpType, Variable,
};

fn register(name: &str, bits: u16) -> Box<Expression> {
    Box::new(Expression::Var(Variable {
        name: name.into(),
        type_: Type::Immediate(bits),
        is_temp: false,
    }))
}

fn ir_register(name: &str, bytes: u64) -> Box<IrExpression> {
    Box::new(IrExpression::Var(IrVariable {
        name: name.into(),
        size: ByteSize(bytes),
        is_temp: false,
    }))
}

fn bare_load() -> Expression {
    Expression::Load {
        memory: Box::new(Expression::Var(Variable {
            name: "m".into(),
            type_: Type::Memory {
                addr_size: 32,
                elem_size: 8,
            },
            is_temp: false,
        })),
        address: Box::new(Expression::Const(Bitvector::from_u32(0))),
        endian: Endianness::LittleEndian,
        size: 32,
    }
}

#[test]
fn byte_sizes_round_up() {
    assert_eq!(ByteSize::from(0u16), ByteSize(0));
    assert_eq!(ByteSize::from(1u16), ByteSize(1));
    assert_eq!(ByteSize::from(8u16), ByteSize(1));
    assert_eq!(ByteSize::from(9u16), ByteSize(2));
    assert_eq!(ByteSize::from(64u16), ByteSize(8));
    assert_eq!(ByteSize::from(65535u16), ByteSize(8192));
    assert_eq!(ByteSize::from(9u64), ByteSize(9));
}

#[test]
fn operator_table() {
    let table = [
        (BinOpType::PLUS, IrBinOpType::IntAdd),
        (BinOpType::MINUS, IrBinOpType::IntSub),
        (BinOpType::TIMES, IrBinOpType::IntMult),
        (BinOpType::DIVIDE, IrBinOpType::IntDiv),
        (BinOpType::SDIVIDE, IrBinOpType::IntSDiv),
        (BinOpType::MOD, IrBinOpType::IntRem),
        (BinOpType::SMOD, IrBinOpType::IntSRem),
        (BinOpType::LSHIFT, IrBinOpType::IntLeft),
        (BinOpType::RSHIFT, IrBinOpType::IntRight),
        (BinOpType::ARSHIFT, IrBinOpType::IntSRight),
        (BinOpType::AND, IrBinOpType::IntAnd),
        (BinOpType::OR, IrBinOpType::IntOr),
        (BinOpType::XOR, IrBinOpType::IntXOr),
        (BinOpType::EQ, IrBinOpType::IntEqual),
        (BinOpType::NEQ, IrBinOpType::IntNotEqual),
        (BinOpType::LT, IrBinOpType::IntLess),
        (BinOpType::LE, IrBinOpType::IntLessEqual),
        (BinOpType::SLT, IrBinOpType::IntSLess),
        (BinOpType::SLE, IrBinOpType::IntSLessEqual),
    ];
    for (source, target) in table {
        assert_eq!(IrBinOpType::from(source), target);
        let exp = Expression::BinOp {
            op: source,
            lhs: register("a", 64),
            rhs: register("b", 64),
        };
        let expected = IrExpression::BinOp {
            op: target,
            lhs: ir_register("a", 8),
            rhs: ir_register("b", 8),
        };
        assert_eq!(IrExpression::from(exp), expected);
    }
}

#[test]
fn unary_operators() {
    assert_eq!(IrUnOpType::from(UnOpType::NEG), IrUnOpType::Int2Comp);
    assert_eq!(IrUnOpType::from(UnOpType::NOT), IrUnOpType::IntNegate);
    let neg = Expression::UnOp {
        op: UnOpType::NEG,
        arg: register("a", 16),
    };
    assert_eq!(
        IrExpression::from(neg),
        IrExpression::UnOp {
            op: IrUnOpType::Int2Comp,
            arg: ir_register("a", 2)
        }
    );
    let not = Expression::UnOp {
        op: UnOpType::NOT,
        arg: register("a", 16),
    };
    assert_eq!(
        IrExpression::from(not),
        IrExpression::UnOp {
            op: IrUnOpType::IntNegate,
            arg: ir_register("a", 2)
        }
    );
}

#[test]
fn variable_keeps_name_and_flag() {
    let var = Variable {
        name: "tmp".into(),
        type_: Type::Immediate(12),
        is_temp: true,
    };
    let expected = IrVariable {
        name: "tmp".into(),
        size: ByteSize(2),
        is_temp: true,
    };
    assert_eq!(IrVariable::from(var.clone()), expected);
    assert_eq!(
        IrExpression::from(Expression::Var(var)),
        IrExpression::Var(expected)
    );
}

#[test]
fn constant_is_carried_over_unchanged() {
    let exp = Expression::Const(Bitvector::from_u8(234));
    assert_eq!(
        IrExpression::from(exp),
        IrExpression::Const(Bitvector::from_u8(234))
    );
    assert_ne!(
        IrExpression::from(Expression::Const(Bitvector::from_u8(234))),
        IrExpression::Const(Bitvector::from_u64(234))
    );
}

#[test]
fn widening_casts() {
    let unsigned = Expression::Cast {
        kind: CastType::UNSIGNED,
        width: 64,
        arg: register("a", 32),
    };
    assert_eq!(
        IrExpression::from(unsigned),
        IrExpression::Cast {
            op: IrCastOpType::IntZExt,
            size: ByteSize(8),
            arg: ir_register("a", 4)
        }
    );
    let signed = Expression::Cast {
        kind: CastType::SIGNED,
        width: 12,
        arg: register("a", 8),
    };
    assert_eq!(
        IrExpression::from(signed),
        IrExpression::Cast {
            op: IrCastOpType::IntSExt,
            size: ByteSize(2),
            arg: ir_register("a", 1)
        }
    );
}

#[test]
fn high_and_low_cast_of_32_bits_to_16() {
    let high = Expression::Cast {
        kind: CastType::HIGH,
        width: 16,
        arg: register("a", 32),
    };
    assert_eq!(
        IrExpression::from(high),
        IrExpression::Subpiece {
            low_byte: ByteSize(2),
            size: ByteSize(2),
            arg: ir_register("a", 4)
        }
    );
    let low = Expression::Cast {
        kind: CastType::LOW,
        width: 16,
        arg: register("a", 32),
    };
    assert_eq!(
        IrExpression::from(low),
        IrExpression::Subpiece {
            low_byte: ByteSize(0),
            size: ByteSize(2),
            arg: ir_register("a", 4)
        }
    );
}

#[test]
fn high_cast_of_an_operand_that_ends_inside_a_byte() {
    let high = Expression::Cast {
        kind: CastType::HIGH,
        width: 8,
        arg: register("a", 20),
    };
    assert_eq!(
        IrExpression::from(high),
        IrExpression::Subpiece {
            low_byte: ByteSize(2),
            size: ByteSize(1),
            arg: ir_register("a", 3)
        }
    );
    let whole = Expression::Cast {
        kind: CastType::HIGH,
        width: 32,
        arg: register("a", 32),
    };
    assert_eq!(
        IrExpression::from(whole),
        IrExpression::Subpiece {
            low_byte: ByteSize(0),
            size: ByteSize(4),
            arg: ir_register("a", 4)
        }
    );
}

#[test]
fn high_cast_needs_whole_bytes_and_a_wide_enough_operand() {
    let unaligned = Expression::Cast {
        kind: CastType::HIGH,
        width: 12,
        arg: register("a", 32),
    };
    assert!(!unaligned.is_lowerable());
    assert_eq!(unaligned.clone().try_lower(), Err(unaligned));
    let too_wide = Expression::Cast {
        kind: CastType::HIGH,
        width: 64,
        arg: register("a", 32),
    };
    assert!(!too_wide.is_lowerable());
    // The low cast asks for neither.
    let low = Expression::Cast {
        kind: CastType::LOW,
        width: 12,
        arg: register("a", 8),
    };
    assert_eq!(
        low.try_lower(),
        Ok(IrExpression::Subpiece {
            low_byte: ByteSize(0),
            size: ByteSize(2),
            arg: ir_register("a", 1)
        })
    );
}

#[test]
fn extraction_spans_one_bit_more_than_its_width() {
    let exp = Expression::Extract {
        low_bit: 8,
        high_bit: 15,
        arg: register("a", 32),
    };
    assert_eq!(exp.bitsize(), 7);
    assert_eq!(
        IrExpression::from(exp),
        IrExpression::Subpiece {
            low_byte: ByteSize(8),
            size: ByteSize(1),
            arg: ir_register("a", 4)
        }
    );
    let odd = Expression::Extract {
        low_bit: 3,
        high_bit: 11,
        arg: register("a", 32),
    };
    assert_eq!(
        IrExpression::from(odd),
        IrExpression::Subpiece {
            low_byte: ByteSize(3),
            size: ByteSize(2),
            arg: ir_register("a", 4)
        }
    );
    let top = Expression::Extract {
        low_bit: 65535,
        high_bit: 65535,
        arg: register("a", 32),
    };
    assert_eq!(
        IrExpression::from(top),
        IrExpression::Subpiece {
            low_byte: ByteSize(65535),
            size: ByteSize(1),
            arg: ir_register("a", 4)
        }
    );
}

#[test]
fn extraction_with_bits_out_of_order_or_too_far_apart() {
    let reversed = Expression::Extract {
        low_bit: 9,
        high_bit: 8,
        arg: register("a", 32),
    };
    assert!(!reversed.is_lowerable());
    let widest = Expression::Extract {
        low_bit: 0,
        high_bit: 65534,
        arg: register("a", 32),
    };
    assert_eq!(
        widest.try_lower(),
        Ok(IrExpression::Subpiece {
            low_byte: ByteSize(0),
            size: ByteSize(8192),
            arg: ir_register("a", 4)
        })
    );
    let too_far = Expression::Extract {
        low_bit: 0,
        high_bit: 65535,
        arg: register("a", 32),
    };
    assert!(!too_far.is_lowerable());
}

#[test]
fn concat_becomes_piece_with_the_left_part_first() {
    let exp = Expression::Concat {
        left: register("hi", 8),
        right: register("lo", 16),
    };
    assert_eq!(
        IrExpression::from(exp),
        IrExpression::BinOp {
            op: IrBinOpType::Piece,
            lhs: ir_register("hi", 1),
            rhs: ir_register("lo", 2)
        }
    );
}

#[test]
fn bare_load_is_not_lowered() {
    let load = bare_load();
    assert!(!load.is_lowerable());
    assert_eq!(load.clone().try_lower(), Err(load));
}

#[test]
fn unsupported_node_anywhere_stops_the_lowering() {
    let unsupported = [
        bare_load(),
        Expression::Store {
            memory: register("m", 8),
            address: register("a", 8),
            value: register("v", 8),
            endian: Endianness::BigEndian,
            size: 8,
        },
        Expression::Let {
            var: Variable {
                name: "x".into(),
                type_: Type::Immediate(8),
                is_temp: false,
            },
            bound_exp: register("b", 8),
            body_exp: register("x", 8),
        },
        Expression::Unknown {
            description: "unknown".into(),
            type_: Type::Immediate(8),
        },
        Expression::IfThenElse {
            condition: register("c", 1),
            true_exp: register("t", 8),
            false_exp: register("f", 8),
        },
    ];
    for node in unsupported {
        assert!(!node.is_lowerable());
        let around = Expression::Concat {
            left: register("a", 8),
            right: Box::new(Expression::Cast {
                kind: CastType::LOW,
                width: 8,
                arg: Box::new(Expression::UnOp {
                    op: UnOpType::NOT,
                    arg: Box::new(Expression::BinOp {
                        op: BinOpType::XOR,
                        lhs: Box::new(Expression::Extract {
                            low_bit: 0,
                            high_bit: 7,
                            arg: Box::new(node),
                        }),
                        rhs: register("b", 8),
                    }),
                }),
            }),
        };
        assert!(!around.is_lowerable());
        assert_eq!(around.clone().try_lower(), Err(around));
    }
}

#[test]
fn variable_without_a_width_is_not_lowered() {
    let memory = Expression::Var(Variable {
        name: "mem".into(),
        type_: Type::Memory {
            addr_size: 64,
            elem_size: 8,
        },
        is_temp: false,
    });
    assert!(!memory.is_lowerable());
    let untyped = Expression::Var(Variable {
        name: "u".into(),
        type_: Type::Unknown,
        is_temp: false,
    });
    assert_eq!(untyped.clone().try_lower(), Err(untyped));
}

#[test]
fn lowering_after_elimination() {
    let mut exp = Expression::Let {
        var: Variable {
            name: "x".into(),
            type_: Type::Immediate(64),
            is_temp: true,
        },
        bound_exp: Box::new(Expression::Const(Bitvector::from_u64(12))),
        body_exp: Box::new(Expression::BinOp {
            op: BinOpType::PLUS,
            lhs: Box::new(Expression::Var(Variable {
                name: "x".into(),
                type_: Type::Immediate(64),
                is_temp: true,
            })),
            rhs: Box::new(Expression::Const(Bitvector::from_u64(42))),
        }),
    };
    assert!(!exp.is_lowerable());
    exp.replace_let_bindings();
    assert_eq!(
        exp.try_lower(),
        Ok(IrExpression::BinOp {
            op: IrBinOpType::IntAdd,
            lhs: Box::new(IrExpression::Const(Bitvector::from_u64(12))),
            rhs: Box::new(IrExpression::Const(Bitvector::from_u64(42))),
        })
    );
}

#[test]
fn lowered_expressions_compare_and_copy() {
    let a = IrExpression::Subpiece {
        low_byte: ByteSize(1),
        size: ByteSize(2),
        arg: ir_register("a", 4),
    };
    let b = IrExpression::Subpiece {
        low_byte: ByteSize(1),
        size: ByteSize(3),
        arg: ir_register("a", 4),
    };
    assert_eq!(a.clone(), a);
    assert_ne!(a, b);
    assert_ne!(a, *ir_register("a", 4));
}
