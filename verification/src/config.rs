//! The configuration snapshot consumed by every component, and the pure
//! parts of locating and defaulting it. Reading and writing the
//! configuration file is left to the unverified driver, which hands the
//! home directory in as a plain value.

use vstd::prelude::*;

use crate::types::AppError;

verus! {

/// One self-hosted GitLab instance drawn from the configuration.
#[derive(Debug, Clone)]
pub struct GitLabInstance {
    pub name: String,
    pub url: String,
    pub token: Option<String>,
}

/// The read-only configuration snapshot handed to the core once per batch
/// of operations.
///
/// Invariant (`wf`): instance names are unique within `gitlab_instance`.
#[derive(Debug, Clone)]
pub struct Config {
    pub github_token: Option<String>,
    pub gitlab_token: Option<String>,
    pub ssh_key: Option<String>,
    pub gitlab_instance: Vec<GitLabInstance>,
    pub default_clone_path: String,
}

/// The first instance of a sequence carrying a given name, if any.
pub open spec fn spec_find_instance(instances: Seq<GitLabInstance>, name: Seq<char>) -> Option<
    GitLabInstance,
>
    decreases instances.len(),
{
    if instances.len() == 0 {
        None
    } else if instances[0].name@ == name {
        Some(instances[0])
    } else {
        spec_find_instance(instances.skip(1), name)
    }
}

impl Config {
    /// Well-formedness: instance names are unique within the list.
    pub open spec fn wf(&self) -> bool {
        forall|i: int, j: int|
            0 <= i < j < self.gitlab_instance@.len() ==> self.gitlab_instance@[i].name@
                != self.gitlab_instance@[j].name@
    }

    /// The default configuration for a machine whose home directory is
    /// `home` (or unknown): no tokens, no SSH key, clones under
    /// `<home>/projects`, and the single well-known GitLab.com instance.
    pub fn default_with_home(home: Option<&str>) -> (r: Config)
        ensures
            r.github_token is None,
            r.gitlab_token is None,
            r.ssh_key is None,
            r.default_clone_path@ == match home {
                Some(h) => h@ + "/projects"@,
                None => "./projects"@,
            },
            r.gitlab_instance@.len() == 1,
            r.gitlab_instance@[0].name@ == "GitLab"@,
            r.gitlab_instance@[0].url@ == "https://gitlab.com"@,
            r.gitlab_instance@[0].token is None,
            r.wf(),
    {
        let default_clone_path = match home {
            Some(h) => {
                let mut p = h.to_owned();
                p.append("/projects");
                p
            },
            None => String::from_str("./projects"),
        };
        Config {
            github_token: None,
            gitlab_token: None,
            ssh_key: None,
            gitlab_instance: vec![
                GitLabInstance {
                    name: String::from_str("GitLab"),
                    url: String::from_str("https://gitlab.com"),
                    token: None,
                },
            ],
            default_clone_path,
        }
    }

    /// Where the configuration file lives under a given home directory; the
    /// home directory itself can only come from the environment, so a
    /// missing one is a configuration error.
    pub fn config_path_from_home(home: Option<&str>) -> (r: Result<String, AppError>)
        ensures
            match home {
                Some(h) => r is Ok && r->Ok_0@ == h@ + "/.config/git-tui-cloner/config.json"@,
                None => r matches Err(e) && (e matches AppError::ConfigError(m) && m@
                    == "Failed to determine home directory"@),
            },
    {
        match home {
            Some(h) => {
                let mut p = h.to_owned();
                p.append("/.config/git-tui-cloner/config.json");
                Ok(p)
            },
            None => Err(
                AppError::ConfigError(String::from_str("Failed to determine home directory")),
            ),
        }
    }

    /// The configured instance with the given name, if any: the first match,
    /// and under `wf` the only one.
    pub fn find_instance<'a>(&'a self, name: &str) -> (r: Option<&'a GitLabInstance>)
        ensures
            match r {
                Some(inst) => spec_find_instance(self.gitlab_instance@, name@) == Some(*inst),
                None => spec_find_instance(self.gitlab_instance@, name@) is None,
            },
    {
        let key = name.to_owned();
        let n = self.gitlab_instance.len();
        let mut i: usize = 0;
        proof {
            assert(self.gitlab_instance@.skip(0) =~= self.gitlab_instance@);
        }
        while i < n
            invariant
                0 <= i <= n,
                n == self.gitlab_instance@.len(),
                key@ == name@,
                spec_find_instance(self.gitlab_instance@.skip(i as int), name@)
                    == spec_find_instance(self.gitlab_instance@, name@),
            decreases n - i,
        {
            if self.gitlab_instance[i].name == key {
                proof {
                    assert(self.gitlab_instance@.skip(i as int)[0] == self.gitlab_instance@[i as int]);
                }
                return Some(&self.gitlab_instance[i]);
            }
            proof {
                assert(self.gitlab_instance@.skip(i as int).skip(1) =~= self.gitlab_instance@.skip(
                    i as int + 1,
                ));
                assert(self.gitlab_instance@.skip(i as int)[0] == self.gitlab_instance@[i as int]);
            }
            i = i + 1;
        }
        proof {
            assert(self.gitlab_instance@.skip(n as int) =~= Seq::<GitLabInstance>::empty());
        }
        None
    }
}

} // verus!
