//! The `open` arguments that start a macOS app bundle with the translator's
//! variables set.
//!
//! `open --env` is the only way in: the system starts a bundle from the login
//! session, so nothing that the parent exports reaches it.

use crate::output;
use crate::text;
use vstd::prelude::*;

verus! {

/// A translator that may be running.
#[derive(Clone, Debug, Default)]
pub struct Shim {
    pub running: bool,
    pub base_url: String,
    pub auth_token: String,
}

/// The arguments that carry one variable across.
pub open spec fn env_args(name: Seq<char>, value: Seq<char>) -> Seq<Seq<char>> {
    seq!["--env"@, name + "="@ + value]
}

/// The arguments that wire an app to a translator: nothing without one, and no
/// model variables without a model, for an empty value would unset the app's
/// own.
pub open spec fn wiring_args(shim: Shim, model: Seq<char>) -> Seq<Seq<char>> {
    if !shim.running {
        Seq::empty()
    } else {
        env_args("ANTHROPIC_BASE_URL"@, shim.base_url@) + env_args("ANTHROPIC_AUTH_TOKEN"@, shim.auth_token@) + (
        if model.len() > 0 {
            env_args("ANTHROPIC_MODEL"@, model) + env_args("ANTHROPIC_DEFAULT_HAIKU_MODEL"@, model)
        } else {
            Seq::empty()
        })
    }
}

/// The whole argument list: a new instance, waited for, with its wiring and
/// whatever is passed through.
pub open spec fn open_argv(bundle: Seq<char>, shim: Shim, passthrough: Seq<Seq<char>>, model: Seq<char>) -> Seq<
    Seq<char>,
> {
    seq!["-n"@, "-W"@] + wiring_args(shim, model) + seq!["-a"@, bundle] + (if passthrough.len() > 0 {
        seq!["--args"@] + passthrough
    } else {
        Seq::empty()
    })
}

fn push_env(args: &mut Vec<String>, name: &str, value: &str)
    ensures
        output::strings_view(final(args)@) == output::strings_view(old(args)@) + env_args(name@, value@),
{
    let ghost before = output::strings_view(args@);
    args.push(text::owned("--env"));
    args.push(text::cat3(name, "=", value));
    assert(output::strings_view(args@) =~= before + env_args(name@, value@));
}

/// `open(1)` arguments that launch a bundle against a translator; see
/// [`open_argv`].
pub fn open_args(bundle: &str, shim: &Shim, passthrough: &Vec<String>, model: &str) -> (r: Vec<String>)
    ensures
        output::strings_view(r@) == open_argv(bundle@, *shim, output::strings_view(passthrough@), model@),
{
    let mut args: Vec<String> = Vec::new();
    args.push(text::owned("-n"));
    args.push(text::owned("-W"));
    assert(output::strings_view(args@) =~= seq!["-n"@, "-W"@]);
    if shim.running {
        push_env(&mut args, "ANTHROPIC_BASE_URL", shim.base_url.as_str());
        push_env(&mut args, "ANTHROPIC_AUTH_TOKEN", shim.auth_token.as_str());
        if !model.is_empty() {
            push_env(&mut args, "ANTHROPIC_MODEL", model);
            push_env(&mut args, "ANTHROPIC_DEFAULT_HAIKU_MODEL", model);
        }
    }
    let ghost wired = output::strings_view(args@);
    assert(wired =~= seq!["-n"@, "-W"@] + wiring_args(*shim, model@));
    args.push(text::owned("-a"));
    args.push(text::owned(bundle));
    assert(output::strings_view(args@) =~= wired + seq!["-a"@, bundle@]);
    if passthrough.len() > 0 {
        let ghost before = output::strings_view(args@);
        args.push(text::owned("--args"));
        let ghost all = output::strings_view(passthrough@);
        let mut i: usize = 0;
        assert(output::strings_view(args@) =~= before + (seq!["--args"@] + all.take(0)));
        while i < passthrough.len()
            invariant
                i <= passthrough@.len(),
                all == output::strings_view(passthrough@),
                output::strings_view(args@) == before + (seq!["--args"@] + all.take(i as int)),
            decreases passthrough@.len() - i,
        {
            let ghost now = output::strings_view(args@);
            args.push(text::owned(passthrough[i].as_str()));
            assert(output::strings_view(args@) =~= now.push(passthrough@[i as int]@));
            assert(all.take(i + 1) =~= all.take(i as int).push(passthrough@[i as int]@));
            i = i + 1;
            assert(output::strings_view(args@) =~= before + (seq!["--args"@] + all.take(i as int)));
        }
        assert(all.take(i as int) =~= all);
    }
    assert(output::strings_view(args@) =~= open_argv(bundle@, *shim, output::strings_view(passthrough@), model@));
    args
}

/// A bundle that is opened against a translator that runs is told its address, its
/// token and, for both the main and the small tasks, the model asked for; without
/// one it is told nothing. What was passed along comes last, in its order.
pub proof fn an_opened_bundle_is_told_its_model(bundle: Seq<char>, shim: Shim, passthrough: Seq<Seq<char>>, model: Seq<char>)
    ensures
        ({
            let args = open_argv(bundle, shim, passthrough, model);
            let told: int = if !shim.running {
                0
            } else if model.len() > 0 {
                8
            } else {
                4
            };
            &&& args.len() == 4 + told + (if passthrough.len() > 0 {
                1 + passthrough.len()
            } else {
                0
            })
            &&& args[0] == "-n"@ && args[1] == "-W"@
            &&& args[2 + told] == "-a"@ && args[3 + told] == bundle
            &&& shim.running ==> args[2] == "--env"@ && args[3] == "ANTHROPIC_BASE_URL"@ + "="@ + shim.base_url@
            &&& shim.running ==> args[4] == "--env"@ && args[5] == "ANTHROPIC_AUTH_TOKEN"@ + "="@ + shim.auth_token@
            &&& shim.running && model.len() > 0 ==> args[6] == "--env"@ && args[7] == "ANTHROPIC_MODEL"@ + "="@ + model
            &&& shim.running && model.len() > 0 ==> args[8] == "--env"@ && args[9] == "ANTHROPIC_DEFAULT_HAIKU_MODEL"@
                + "="@ + model
            &&& passthrough.len() > 0 ==> args[4 + told] == "--args"@ && args.skip(5 + told) == passthrough
        }),
{
    let args = open_argv(bundle, shim, passthrough, model);
    let told: int = if !shim.running {
        0
    } else if model.len() > 0 {
        8
    } else {
        4
    };
    assert(wiring_args(shim, model).len() == told);
    if passthrough.len() > 0 {
        assert(args.skip(5 + told) =~= passthrough);
    }
}

} // verus!
