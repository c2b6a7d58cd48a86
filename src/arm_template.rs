use crate::cli_command::{clone_pairs, distinct_names, listed_parameters};
use crate::error::{DemoUpError, RequiredField};
use vstd::prelude::*;
use vstd::string::*;

verus! {

/// An infrastructure template to deploy, from a local path or a URL, with
/// the values of its parameters in the order in which they are rendered;
/// the configuration gives each name once (`ArmTemplateView::well_formed`).
#[derive(Debug, PartialEq, Eq)]
pub struct ArmTemplate {
    pub path: Option<String>,
    pub url: Option<String>,
    pub parameters: Option<Vec<(String, String)>>,
}

/// The mathematical model of an [`ArmTemplate`].
pub struct ArmTemplateView {
    pub path: Option<Seq<char>>,
    pub url: Option<Seq<char>>,
    pub parameters: Option<Seq<(Seq<char>, Seq<char>)>>,
}

impl View for ArmTemplate {
    type V = ArmTemplateView;

    open spec fn view(&self) -> ArmTemplateView {
        ArmTemplateView {
            path: self.path.deep_view(),
            url: self.url.deep_view(),
            parameters: self.parameters.deep_view(),
        }
    }
}

impl DeepView for ArmTemplate {
    type V = ArmTemplateView;

    open spec fn deep_view(&self) -> ArmTemplateView {
        self.view()
    }
}

impl ArmTemplateView {
    /// Each parameter is given once, as in the configuration's mapping.
    pub open spec fn well_formed(self) -> bool {
        self.parameters matches Some(p) ==> distinct_names(p)
    }
}

/// `name=value` for each parameter in turn.
pub open spec fn assignment_tokens(parameters: Seq<(Seq<char>, Seq<char>)>) -> Seq<Seq<char>> {
    parameters.map_values(|p: (Seq<char>, Seq<char>)| p.0 + seq!['='] + p.1)
}

impl ArmTemplate {
    /// The local path of the template, for a deployment from disk.
    pub fn path(&self) -> (r: Result<String, DemoUpError>)
        ensures
            match self.path {
                Some(p) => r == Ok::<String, DemoUpError>(p),
                None => r == Err::<String, DemoUpError>(
                    DemoUpError::MissingRequiredField(RequiredField::TemplatePath),
                ),
            },
    {
        match &self.path {
            Some(p) => Ok(p.clone()),
            None => Err(DemoUpError::MissingRequiredField(RequiredField::TemplatePath)),
        }
    }

    /// The URL of the template, for a deployment from the network.
    pub fn url(&self) -> (r: Result<String, DemoUpError>)
        ensures
            match self.url {
                Some(u) => r == Ok::<String, DemoUpError>(u),
                None => r == Err::<String, DemoUpError>(
                    DemoUpError::MissingRequiredField(RequiredField::TemplateUrl),
                ),
            },
    {
        match &self.url {
            Some(u) => Ok(u.clone()),
            None => Err(DemoUpError::MissingRequiredField(RequiredField::TemplateUrl)),
        }
    }

    /// The parameters as deployment tokens: `name=value` for each.
    pub fn parameters(&self) -> (r: Vec<String>)
        ensures
            r.deep_view() == assignment_tokens(listed_parameters(self@.parameters)),
    {
        let mut tokens: Vec<String> = Vec::new();
        if let Some(parameters) = &self.parameters {
            let n = parameters.len();
            let mut i: usize = 0;
            while i < n
                invariant
                    n == parameters.len(),
                    i <= n,
                    self@.parameters == Some(parameters.deep_view()),
                    tokens.deep_view() == assignment_tokens(parameters.deep_view().take(i as int)),
                decreases n - i,
            {
                let (name, value) = &parameters[i];
                let mut token = name.clone();
                token.append("=");
                token.append(value.as_str());
                proof {
                    reveal_strlit("=");
                    assert("="@ =~= seq!['=']);
                }
                let ghost before = tokens.deep_view();
                tokens.push(token);
                proof {
                    assert(tokens.deep_view() =~= before.push(name@ + seq!['='] + value@));
                    assert(assignment_tokens(parameters.deep_view().take(i + 1)) =~= before.push(
                        name@ + seq!['='] + value@,
                    ));
                }
                i = i + 1;
            }
            proof {
                assert(parameters.deep_view().take(n as int) =~= parameters.deep_view());
            }
        }
        proof {
            assert(assignment_tokens(Seq::empty()) =~= Seq::empty());
        }
        tokens
    }
}

impl Clone for ArmTemplate {
    fn clone(&self) -> (r: Self)
        ensures
            r@ == self@,
    {
        let parameters = match &self.parameters {
            Some(p) => Some(clone_pairs(p)),
            None => None,
        };
        ArmTemplate { path: self.path.clone(), url: self.url.clone(), parameters }
    }
}

impl Default for ArmTemplate {
    fn default() -> (r: Self)
        ensures
            r.path is None,
            r.url is None,
            r.parameters is None,
    {
        ArmTemplate { path: None, url: None, parameters: None }
    }
}

} // verus!
