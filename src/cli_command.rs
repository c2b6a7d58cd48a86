use crate::error::{DemoUpError, RequiredField};
use vstd::prelude::*;
use vstd::string::*;

verus! {

/// One invocation of the cloud CLI: a subcommand and its named arguments.
///
/// `parameters` lists the named arguments in the order in which they are
/// rendered; the configuration gives each name once (`CliCommandView::well_formed`).
#[derive(Debug, PartialEq, Eq)]
pub struct CliCommand {
    pub subcommand: Option<String>,
    pub parameters: Option<Vec<(String, String)>>,
}

/// The mathematical model of a [`CliCommand`].
pub struct CliCommandView {
    pub subcommand: Option<Seq<char>>,
    pub parameters: Option<Seq<(Seq<char>, Seq<char>)>>,
}

impl View for CliCommand {
    type V = CliCommandView;

    open spec fn view(&self) -> CliCommandView {
        CliCommandView {
            subcommand: self.subcommand.deep_view(),
            parameters: self.parameters.deep_view(),
        }
    }
}

impl DeepView for CliCommand {
    type V = CliCommandView;

    open spec fn deep_view(&self) -> CliCommandView {
        self.view()
    }
}

/// No name is given twice.
pub open spec fn distinct_names(parameters: Seq<(Seq<char>, Seq<char>)>) -> bool {
    forall|a: int, b: int|
        0 <= a < b < parameters.len() ==> (#[trigger] parameters[a]).0 != (#[trigger] parameters[b]).0
}

impl CliCommandView {
    /// Each named argument is given once, as in the configuration's mapping.
    pub open spec fn well_formed(self) -> bool {
        self.parameters matches Some(p) ==> distinct_names(p)
    }
}

/// The named arguments of a missing list: none.
pub open spec fn listed_parameters(
    parameters: Option<Seq<(Seq<char>, Seq<char>)>>,
) -> Seq<(Seq<char>, Seq<char>)> {
    match parameters {
        Some(p) => p,
        None => Seq::empty(),
    }
}

/// `--name` followed by the value, for each named argument in turn.
pub open spec fn flag_tokens(parameters: Seq<(Seq<char>, Seq<char>)>) -> Seq<Seq<char>>
    decreases parameters.len(),
{
    if parameters.len() == 0 {
        Seq::empty()
    } else {
        let (name, value) = parameters.last();
        flag_tokens(parameters.drop_last()) + seq![seq!['-', '-'] + name, value]
    }
}

/// A copy of a list of named values.
pub(crate) fn clone_pairs(pairs: &Vec<(String, String)>) -> (r: Vec<(String, String)>)
    ensures
        r@ == pairs@,
{
    let mut copy: Vec<(String, String)> = Vec::new();
    let mut i: usize = 0;
    while i < pairs.len()
        invariant
            i <= pairs.len(),
            copy@ == pairs@.take(i as int),
        decreases pairs.len() - i,
    {
        let (name, value) = &pairs[i];
        copy.push((name.clone(), value.clone()));
        proof {
            assert(pairs@.take(i + 1) =~= pairs@.take(i as int).push(pairs@[i as int]));
        }
        i = i + 1;
    }
    proof {
        assert(pairs@.take(pairs.len() as int) =~= pairs@);
    }
    copy
}

impl CliCommand {
    /// The subcommand, which every CLI invocation needs.
    pub fn subcommand(&self) -> (r: Result<String, DemoUpError>)
        ensures
            match self.subcommand {
                Some(s) => r == Ok::<String, DemoUpError>(s),
                None => r == Err::<String, DemoUpError>(
                    DemoUpError::MissingRequiredField(RequiredField::Subcommand),
                ),
            },
    {
        match &self.subcommand {
            Some(s) => Ok(s.clone()),
            None => Err(DemoUpError::MissingRequiredField(RequiredField::Subcommand)),
        }
    }

    /// The named arguments as command-line tokens: `--name value` for each.
    pub fn parameters(&self) -> (r: Vec<String>)
        ensures
            r.deep_view() == flag_tokens(listed_parameters(self@.parameters)),
    {
        let mut tokens: Vec<String> = Vec::new();
        if let Some(parameters) = &self.parameters {
            let n = parameters.len();
            let mut i: usize = 0;
            while i < n
                invariant
                    n == parameters.len(),
                    i <= n,
                    self@.parameters == Some(parameters.deep_view()),
                    tokens.deep_view() == flag_tokens(parameters.deep_view().take(i as int)),
                decreases n - i,
            {
                let (name, value) = &parameters[i];
                let mut flag = String::from_str("--");
                proof {
                    reveal_strlit("--");
                    assert(flag@ =~= seq!['-', '-']);
                }
                flag.append(name.as_str());
                let ghost before = tokens.deep_view();
                tokens.push(flag);
                tokens.push(value.clone());
                proof {
                    assert(parameters.deep_view().take(i + 1).drop_last()
                        =~= parameters.deep_view().take(i as int));
                    assert(tokens.deep_view() =~= before + seq![seq!['-', '-'] + name@, value@]);
                }
                i = i + 1;
            }
            proof {
                assert(parameters.deep_view().take(n as int) == parameters.deep_view());
            }
        }
        tokens
    }
}

impl Clone for CliCommand {
    fn clone(&self) -> (r: Self)
        ensures
            r@ == self@,
    {
        let parameters = match &self.parameters {
            Some(p) => Some(clone_pairs(p)),
            None => None,
        };
        CliCommand { subcommand: self.subcommand.clone(), parameters }
    }
}

impl Default for CliCommand {
    fn default() -> (r: Self)
        ensures
            r.subcommand is None,
            r.parameters is None,
    {
        CliCommand { subcommand: None, parameters: None }
    }
}

} // verus!
