use vstd::prelude::*;

use crate::args::{arg_of, NetLoginArgs, OperatorArg};
use crate::operator::Operator;

verus! {

/// A stored campus-network account: the user id, the secret, and the
/// carrier the id belongs to.
#[derive(Debug, Clone)]
pub struct NetLoginAccount {
    pub id: String,
    pub password: String,
    pub operator: Operator,
}

/// The network-login section of the configuration: the stored account.
#[derive(Debug, Clone)]
pub struct NetLoginCfg {
    pub account: NetLoginAccount,
}

/// What runs when the tool is started without a subcommand.
#[derive(Debug, Clone, Copy, PartialEq, Eq, Structural)]
pub enum OnLaunchAction {
    NetLogin,
}

impl Default for OnLaunchAction {
    /// Logging in is the action a fresh configuration selects.
    fn default() -> (r: Self)
        ensures
            r is NetLogin,
    {
        OnLaunchAction::NetLogin
    }
}

/// The persisted configuration: the on-launch action and, once one was set,
/// the stored account.
#[derive(Debug, Clone)]
pub struct Config {
    pub on_launch: OnLaunchAction,
    pub net_login: Option<NetLoginCfg>,
}

impl Default for Config {
    /// A fresh configuration: log in on launch, no account stored yet.
    fn default() -> (r: Self)
        ensures
            r.on_launch is NetLogin,
            r.net_login is None,
    {
        Config { on_launch: OnLaunchAction::NetLogin, net_login: None }
    }
}

/// The command the configuration selects when none is given on the command
/// line.
#[derive(Debug, Clone)]
pub enum SubCmd {
    NetLogin(NetLoginArgs),
}

impl Config {
    /// The command the configured on-launch action stands for: a login with
    /// the stored account, all three credentials filled in. A configuration
    /// without a stored account selects nothing; an account must be set
    /// first.
    pub fn into_sub_cmd(self) -> (r: Option<SubCmd>)
        ensures
            self.net_login matches Some(cfg) ==> (r matches Some(SubCmd::NetLogin(args))
                && args.id == Some(cfg.account.id) && args.password == Some(cfg.account.password)
                && args.operator == Some(arg_of(cfg.account.operator))),
            self.net_login is None ==> r is None,
    {
        match self.on_launch {
            OnLaunchAction::NetLogin => match self.net_login {
                Some(cfg) => Some(
                    SubCmd::NetLogin(
                        NetLoginArgs {
                            id: Some(cfg.account.id),
                            password: Some(cfg.account.password),
                            operator: Some(OperatorArg::from(cfg.account.operator)),
                        },
                    ),
                ),
                None => None,
            },
        }
    }
}

impl From<NetLoginCfg> for NetLoginArgs {
    /// A stored account as ready-to-run login arguments.
    fn from(value: NetLoginCfg) -> (r: Self) {
        NetLoginArgs {
            id: Some(value.account.id),
            password: Some(value.account.password),
            operator: Some(OperatorArg::from(value.account.operator)),
        }
    }
}

impl vstd::std_specs::convert::FromSpecImpl<NetLoginCfg> for NetLoginArgs {
    open spec fn obeys_from_spec() -> bool {
        true
    }

    open spec fn from_spec(value: NetLoginCfg) -> Self {
        NetLoginArgs {
            id: Some(value.account.id),
            password: Some(value.account.password),
            operator: Some(arg_of(value.account.operator)),
        }
    }
}

} // verus!
