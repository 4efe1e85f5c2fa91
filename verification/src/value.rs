//! The values that ledger entries hold.

use crate::types::{Address, Bytes32, TokenData, TokenView, WithdrawRequest};
use vstd::prelude::*;

verus! {

/// The type of a stored value.
#[derive(Copy, Clone, Debug, Eq, PartialEq, Structural)]
pub enum ValueKind {
    Bool,
    U32,
    U64,
    I128,
    Address,
    Bytes,
    Text,
    Withdrawal,
    Token,
}

/// A stored value.
#[derive(Debug, Eq, PartialEq)]
pub enum Value {
    Bool(bool),
    U32(u32),
    U64(u64),
    I128(i128),
    Address(Address),
    Bytes(Bytes32),
    Text(String),
    Withdrawal(WithdrawRequest),
    Token(TokenData),
}

/// What a [`Value`] says.
pub ghost enum ValueView {
    Bool(bool),
    U32(u32),
    U64(u64),
    I128(i128),
    Address(Address),
    Bytes(Bytes32),
    Text(Seq<char>),
    Withdrawal(WithdrawRequest),
    Token(TokenView),
}

impl ValueView {
    /// The type of this value.
    pub open spec fn kind(self) -> ValueKind {
        match self {
            ValueView::Bool(_) => ValueKind::Bool,
            ValueView::U32(_) => ValueKind::U32,
            ValueView::U64(_) => ValueKind::U64,
            ValueView::I128(_) => ValueKind::I128,
            ValueView::Address(_) => ValueKind::Address,
            ValueView::Bytes(_) => ValueKind::Bytes,
            ValueView::Text(_) => ValueKind::Text,
            ValueView::Withdrawal(_) => ValueKind::Withdrawal,
            ValueView::Token(_) => ValueKind::Token,
        }
    }
}

impl View for Value {
    type V = ValueView;

    open spec fn view(&self) -> ValueView {
        match self {
            Value::Bool(b) => ValueView::Bool(*b),
            Value::U32(n) => ValueView::U32(*n),
            Value::U64(n) => ValueView::U64(*n),
            Value::I128(n) => ValueView::I128(*n),
            Value::Address(a) => ValueView::Address(*a),
            Value::Bytes(b) => ValueView::Bytes(*b),
            Value::Text(s) => ValueView::Text(s@),
            Value::Withdrawal(r) => ValueView::Withdrawal(*r),
            Value::Token(t) => ValueView::Token(t@),
        }
    }
}

impl Value {
    /// Returns the type of this value.
    pub fn kind(&self) -> (kind: ValueKind)
        ensures
            kind == self@.kind(),
    {
        match self {
            Value::Bool(_) => ValueKind::Bool,
            Value::U32(_) => ValueKind::U32,
            Value::U64(_) => ValueKind::U64,
            Value::I128(_) => ValueKind::I128,
            Value::Address(_) => ValueKind::Address,
            Value::Bytes(_) => ValueKind::Bytes,
            Value::Text(_) => ValueKind::Text,
            Value::Withdrawal(_) => ValueKind::Withdrawal,
            Value::Token(_) => ValueKind::Token,
        }
    }
}

impl Clone for Value {
    fn clone(&self) -> (copy: Self)
        ensures
            copy@ == self@,
    {
        match self {
            Value::Bool(b) => Value::Bool(*b),
            Value::U32(n) => Value::U32(*n),
            Value::U64(n) => Value::U64(*n),
            Value::I128(n) => Value::I128(*n),
            Value::Address(a) => Value::Address(*a),
            Value::Bytes(b) => Value::Bytes(*b),
            Value::Text(s) => Value::Text(s.clone()),
            Value::Withdrawal(r) => Value::Withdrawal(*r),
            Value::Token(t) => Value::Token(t.clone()),
        }
    }
}

} // verus!
