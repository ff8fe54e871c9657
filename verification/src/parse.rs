use vstd::prelude::*;
use crate::config::{apply_cli_args, overridden, CliArgs, Config};
use crate::env::{assemble, env_model, expand_env, regex_pieces, replace_tilde, replace_tilde_str, VAR_PATTERN};
use crate::error::HomieError;

verus! {

/// Where the sprites are looked for: the directory given on the command
/// line, else the one in the configuration file with each `~` replaced by
/// `$HOME` and then variable references expanded in `env` (see
/// [`expand_env`]), else nowhere.
pub open spec fn sprites_dir(
    cli: Option<String>,
    configured: Option<String>,
    env: Seq<(String, String)>,
) -> Option<Seq<char>> {
    match cli {
        Some(p) => Some(p@),
        None => match configured {
            Some(q) => match regex_pieces(VAR_PATTERN@, replace_tilde(q@)) {
                Some((gaps, names)) => Some(assemble(gaps, names, env_model(env))),
                None => None,
            },
            None => None,
        },
    }
}

/// Merges the command line into the configuration loaded from the
/// configuration file, and finds the sprite directory.
///
/// Returns the merged configuration, whose sprite path is always `None`,
/// and the sprite directory. Fails with [`HomieError::NoDimensions`] when
/// neither a width nor a height is set, and then with
/// [`HomieError::NoSprites`] when no sprite directory is given anywhere.
pub fn run(config: Config, cli: CliArgs, env: &Vec<(String, String)>) -> (r: Result<
    (Config, String),
    HomieError,
>)
    ensures
        overridden(config, cli).width is Some || overridden(config, cli).height is Some ==> (r matches Err(
            HomieError::NoSprites,
        ) <==> cli.sprites_path is None && config.sprites_path is None),
        ({
            let merged = overridden(config, cli);
            if merged.width is None && merged.height is None {
                r matches Err(HomieError::NoDimensions)
            } else {
                match sprites_dir(cli.sprites_path, config.sprites_path, env@) {
                    Some(dir) => r matches Ok((c, p)) && c == Config {
                        sprites_path: None,
                        ..merged
                    } && p@ == dir,
                    None => r matches Err(HomieError::NoSprites),
                }
            }
        }),
{
    let mut config = apply_cli_args(config, &cli);
    if config.width.is_none() && config.height.is_none() {
        return Err(HomieError::NoDimensions);
    }
    let configured = config.sprites_path.take();
    let sprites_path = match cli.sprites_path {
        Some(p) => p,
        None => match configured {
            Some(c) => {
                let replaced = replace_tilde_str(c.as_str());
                match expand_env(replaced.as_str(), env) {
                    Some(p) => p,
                    None => {
                        return Err(HomieError::NoSprites);
                    },
                }
            },
            None => {
                return Err(HomieError::NoSprites);
            },
        },
    };
    Ok((config, sprites_path))
}


/// The sprite directory is the one given on the command line whenever there
/// is one; else, the configured one with `~` replaced by `$HOME` and then
/// each variable reference expanded, whatever characters it holds; and
/// there is none when neither is given.
pub proof fn lemma_sprites_dir(
    cli: Option<String>,
    configured: Option<String>,
    env: Seq<(String, String)>,
)
    ensures
        cli matches Some(p) ==> sprites_dir(cli, configured, env) == Some(p@),
        cli is None && configured is None ==> sprites_dir(cli, configured, env) is None,
        cli is None ==> (configured matches Some(q) ==> (regex_pieces(
            VAR_PATTERN@,
            replace_tilde(q@),
        ) matches Some((gaps, names)) ==> sprites_dir(cli, configured, env) == Some(
            assemble(gaps, names, env_model(env)),
        ))),
{
}

} // verus!
