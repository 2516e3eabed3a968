use vstd::prelude::*;

use crate::operator::Operator;

verus! {

/// The carrier as it appears on the command line; a mirror of [`Operator`]
/// kept separate so the argument surface can evolve on its own.
#[derive(Debug, Clone, Copy, PartialEq, Eq, Structural)]
pub enum OperatorArg {
    Mobie,
    Unicom,
    Telecom,
}

/// The argument mirror of an operator.
pub open spec fn arg_of(op: Operator) -> OperatorArg {
    match op {
        Operator::Mobie => OperatorArg::Mobie,
        Operator::Unicom => OperatorArg::Unicom,
        Operator::Telecom => OperatorArg::Telecom,
    }
}

/// The operator an argument stands for.
pub open spec fn op_of(arg: OperatorArg) -> Operator {
    match arg {
        OperatorArg::Mobie => Operator::Mobie,
        OperatorArg::Unicom => Operator::Unicom,
        OperatorArg::Telecom => Operator::Telecom,
    }
}

impl From<Operator> for OperatorArg {
    fn from(op: Operator) -> (r: Self) {
        match op {
            Operator::Mobie => OperatorArg::Mobie,
            Operator::Unicom => OperatorArg::Unicom,
            Operator::Telecom => OperatorArg::Telecom,
        }
    }
}

impl vstd::std_specs::convert::FromSpecImpl<Operator> for OperatorArg {
    open spec fn obeys_from_spec() -> bool {
        true
    }

    open spec fn from_spec(op: Operator) -> Self {
        arg_of(op)
    }
}

impl From<OperatorArg> for Operator {
    fn from(arg: OperatorArg) -> (r: Self) {
        match arg {
            OperatorArg::Mobie => Operator::Mobie,
            OperatorArg::Unicom => Operator::Unicom,
            OperatorArg::Telecom => Operator::Telecom,
        }
    }
}

impl vstd::std_specs::convert::FromSpecImpl<OperatorArg> for Operator {
    open spec fn obeys_from_spec() -> bool {
        true
    }

    open spec fn from_spec(arg: OperatorArg) -> Self {
        op_of(arg)
    }
}

/// Law: the two argument conversions invert each other, both ways around.
pub proof fn lemma_operator_arg_round_trip(op: Operator, arg: OperatorArg)
    ensures
        op_of(arg_of(op)) == op,
        arg_of(op_of(arg)) == arg,
{
}

/// The credentials of a login or account-set command; either all three are
/// given or none, in which case the stored account is used.
#[derive(Debug, Clone)]
pub struct NetAccArgs {
    pub id: Option<String>,
    pub password: Option<String>,
    pub operator: Option<OperatorArg>,
}

/// The network subcommands: log in, log out, or store an account.
#[derive(Debug, Clone)]
pub enum Net {
    Login(NetAccArgs),
    Logout,
    SetAccount(NetAccArgs),
}

/// The credentials of a plain login command.
#[derive(Debug, Clone)]
pub struct NetLoginArgs {
    pub id: Option<String>,
    pub password: Option<String>,
    pub operator: Option<OperatorArg>,
}

} // verus!
