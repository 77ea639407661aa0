//! The local profile store: the configured instances by alias, and the alias
//! that is active.

use crate::error::RemoteError;
use vstd::prelude::*;
use vstd::string::StrSliceExecFns;
use vstd::string::StringExecFns;

verus! {

/// The cloud providers the library knows.
#[derive(Debug, Clone, Copy, PartialEq, Eq, Structural)]
pub enum Cloud {
    Aws,
}

/// What `str::to_lowercase` returns for a text.
pub uninterp spec fn lowercase_of(text: Seq<char>) -> Seq<char>;

/// Calls `str::to_lowercase` of std, which vstd does not specify. The
/// contract only gives the result its name: the lowercase form of a text
/// depends on the text alone.
#[verifier::external_body]
fn to_lowercase(text: &str) -> (lowered: String)
    ensures
        lowered@ == lowercase_of(text@),
{
    text.to_lowercase()
}

impl Cloud {
    /// The provider whose lowercase name is `name`: `"aws"` is the only one.
    pub fn from_lowercase(name: &str) -> (result: Result<Cloud, RemoteError>)
        ensures
            name@ == "aws"@ ==> result == Ok::<Cloud, RemoteError>(Cloud::Aws),
            name@ != "aws"@ ==> result == Err::<Cloud, RemoteError>(
                RemoteError::UnsupportedProvider,
            ),
    {
        if name.to_owned() == "aws".to_owned() {
            Ok(Cloud::Aws)
        } else {
            Err(RemoteError::UnsupportedProvider)
        }
    }

    /// Reads a provider name typed by the user, in any letter case.
    pub fn from_str(s: &str) -> (result: Result<Cloud, RemoteError>)
        ensures
            lowercase_of(s@) == "aws"@ ==> result == Ok::<Cloud, RemoteError>(Cloud::Aws),
            lowercase_of(s@) != "aws"@ ==> result == Err::<Cloud, RemoteError>(
                RemoteError::UnsupportedProvider,
            ),
    {
        let lowered = to_lowercase(s);
        Cloud::from_lowercase(lowered.as_str())
    }

    /// The provider's name as shown to the user.
    pub open spec fn name_text(self) -> Seq<char> {
        match self {
            Cloud::Aws => "Aws"@,
        }
    }

    /// Renders the provider's name.
    pub fn name(&self) -> (text: String)
        ensures
            text@ == self.name_text(),
    {
        match self {
            Cloud::Aws => String::from_str("Aws"),
        }
    }
}

/// One configured instance, as the user entered it.
#[derive(Debug, Clone, PartialEq, Eq)]
pub struct InstanceConfig {
    pub alias: String,
    pub instance_id: String,
    pub key_path: String,
    pub user: String,
    pub profile: String,
    pub cloud: Cloud,
}

/// The credential profile to use for what the user typed: `default` where
/// nothing was typed.
pub open spec fn profile_or_default(profile: Seq<char>) -> Seq<char> {
    if profile.len() == 0 {
        "default"@
    } else {
        profile
    }
}

impl InstanceConfig {
    /// Builds the configuration of a new instance from what the user
    /// typed. The cloud name is read in any letter case, and an empty
    /// profile stands for `default`; the other answers are kept as typed.
    ///
    /// Fails with `UnsupportedProvider` where the cloud name in lowercase
    /// is not `aws`.
    pub fn from_answers(
        cloud: &str,
        profile: String,
        instance_id: String,
        key_path: String,
        user: String,
        alias: String,
    ) -> (result: Result<InstanceConfig, RemoteError>)
        ensures
            lowercase_of(cloud@) != "aws"@ ==> result == Err::<InstanceConfig, RemoteError>(
                RemoteError::UnsupportedProvider,
            ),
            lowercase_of(cloud@) == "aws"@ ==> (result matches Ok(config) && {
                &&& config.alias == alias
                &&& config.instance_id == instance_id
                &&& config.key_path == key_path
                &&& config.user == user
                &&& config.profile@ == profile_or_default(profile@)
                &&& config.cloud == Cloud::Aws
            }),
    {
        let cloud = match Cloud::from_str(cloud) {
            Ok(cloud) => cloud,
            Err(error) => {
                return Err(error);
            },
        };
        let profile = if profile.as_str().unicode_len() == 0 {
            String::from_str("default")
        } else {
            profile
        };
        Ok(InstanceConfig { alias, instance_id, key_path, user, profile, cloud })
    }

    /// The configuration as shown in a listing, one field per line.
    pub open spec fn text(self) -> Seq<char> {
        "Alias: "@ + self.alias@ + "\nInstance ID: "@ + self.instance_id@ + "\nKey Path: "@
            + self.key_path@ + "\nUser: "@ + self.user@ + "\nCloud: "@ + self.cloud.name_text()
            + "\nProfile: "@ + self.profile@
    }

    /// Renders the configuration as `text` says.
    pub fn to_string(&self) -> (text: String)
        ensures
            text@ == self.text(),
    {
        let mut text = String::from_str("Alias: ");
        text.append(self.alias.as_str());
        text.append("\nInstance ID: ");
        text.append(self.instance_id.as_str());
        text.append("\nKey Path: ");
        text.append(self.key_path.as_str());
        text.append("\nUser: ");
        text.append(self.user.as_str());
        text.append("\nCloud: ");
        text.append(self.cloud.name().as_str());
        text.append("\nProfile: ");
        text.append(self.profile.as_str());
        text
    }

    /// A copy that equals this configuration field by field.
    pub fn duplicate(&self) -> (copy: InstanceConfig)
        ensures
            copy == *self,
    {
        InstanceConfig {
            alias: self.alias.clone(),
            instance_id: self.instance_id.clone(),
            key_path: self.key_path.clone(),
            user: self.user.clone(),
            profile: self.profile.clone(),
            cloud: self.cloud,
        }
    }
}

/// The whole profile store: the configured instances in the order they were
/// added, and the active alias if one is set.
#[derive(Debug, Clone, PartialEq, Eq)]
pub struct ProfileConfig {
    pub active: Option<String>,
    pub instances: Vec<InstanceConfig>,
}

impl Default for ProfileConfig {
    /// The empty store.
    fn default() -> (config: ProfileConfig)
        ensures
            config.is_empty(),
    {
        ProfileConfig { active: None, instances: Vec::new() }
    }
}

/// Some instance of the list has this alias.
pub open spec fn has_alias(instances: Seq<InstanceConfig>, alias: Seq<char>) -> bool {
    exists|i: int| 0 <= i < instances.len() && (#[trigger] instances[i]).alias@ == alias
}

/// The instance at `index` is the first of the list with this alias.
pub open spec fn first_with_alias(
    instances: Seq<InstanceConfig>,
    alias: Seq<char>,
    index: int,
) -> bool {
    &&& 0 <= index < instances.len()
    &&& instances[index].alias@ == alias
    &&& forall|j: int| 0 <= j < index ==> (#[trigger] instances[j]).alias@ != alias
}

/// The test that keeps every instance but those with this alias.
pub open spec fn other_than(alias: Seq<char>) -> spec_fn(InstanceConfig) -> bool {
    |config: InstanceConfig| config.alias@ != alias
}

/// No alias occurs twice in the list.
pub open spec fn aliases_unique(instances: Seq<InstanceConfig>) -> bool {
    forall|i: int, j: int|
        0 <= i < j < instances.len() ==> (#[trigger] instances[i]).alias@ != (
        #[trigger] instances[j]).alias@
}

/// The position of the first instance with this alias, if there is one.
fn find_alias(instances: &Vec<InstanceConfig>, alias: &String) -> (found: Option<usize>)
    ensures
        found is Some <==> has_alias(instances@, alias@),
        found matches Some(index) ==> first_with_alias(instances@, alias@, index as int),
{
    let mut i: usize = 0;
    while i < instances.len()
        invariant
            i <= instances@.len(),
            forall|j: int| 0 <= j < i ==> (#[trigger] instances@[j]).alias@ != alias@,
        decreases instances@.len() - i,
    {
        if instances[i].alias == *alias {
            return Some(i);
        }
        i += 1;
    }
    None
}

impl ProfileConfig {
    /// The store of a first run: no instance, nothing active.
    pub open spec fn is_empty(self) -> bool {
        self.active is None && self.instances@.len() == 0
    }

    /// Whether an instance with this alias is configured.
    pub fn is_configured(&self, alias: &str) -> (result: bool)
        ensures
            result == has_alias(self.instances@, alias@),
    {
        find_alias(&self.instances, &alias.to_owned()).is_some()
    }

    /// The store that a first run starts from.
    pub fn init() -> (config: ProfileConfig)
        ensures
            config.is_empty(),
    {
        ProfileConfig::default()
    }

    /// The store to work on, given what the profile file held: the stored
    /// one where the file exists, else a fresh empty one. The flag says that
    /// the store is fresh and has to be written out.
    pub fn get_or_create(stored: Option<ProfileConfig>) -> (loaded: (ProfileConfig, bool))
        ensures
            stored matches Some(config) ==> loaded.0 == config && !loaded.1,
            stored is None ==> loaded.0.is_empty() && loaded.1,
    {
        match stored {
            Some(config) => (config, false),
            None => (ProfileConfig::init(), true),
        }
    }
}

impl ProfileConfig {
    /// The store keeps its two rules: no alias is configured twice, and the
    /// active alias, if set, is configured. A store read from a file edited
    /// by hand may break either.
    pub open spec fn well_formed(self) -> bool {
        &&& aliases_unique(self.instances@)
        &&& self.active matches Some(alias) ==> has_alias(self.instances@, alias@)
    }
}

/// Marks the instance with this alias as the active one.
///
/// Fails with `UnknownAlias` where no instance has the alias, and then
/// leaves the store as it was.
pub fn set_active_instance(config: &mut ProfileConfig, alias: &str) -> (result: Result<(), RemoteError>)
    ensures
        has_alias(old(config).instances@, alias@) ==> {
            &&& result is Ok
            &&& final(config).instances == old(config).instances
            &&& final(config).active matches Some(active) && active@ == alias@
        },
        !has_alias(old(config).instances@, alias@) ==> {
            &&& result matches Err(RemoteError::UnknownAlias { alias: unknown }) && unknown@
                == alias@
            &&& *final(config) == *old(config)
        },
        old(config).well_formed() ==> final(config).well_formed(),
{
    let alias = alias.to_owned();
    match find_alias(&config.instances, &alias) {
        Some(_) => {
            config.active = Some(alias);
            Ok(())
        },
        None => Err(RemoteError::UnknownAlias { alias }),
    }
}

/// Adds a newly configured instance at the end of the store, and marks it
/// active where `set_active` says so.
///
/// Fails with `DuplicateAlias` where an instance with its alias is already
/// configured, and then leaves the store as it was.
pub fn new_instance(
    config: &mut ProfileConfig,
    instance: InstanceConfig,
    set_active: bool,
) -> (result: Result<(), RemoteError>)
    ensures
        has_alias(old(config).instances@, instance.alias@) ==> {
            &&& result matches Err(RemoteError::DuplicateAlias { alias }) && alias@
                == instance.alias@
            &&& *final(config) == *old(config)
        },
        !has_alias(old(config).instances@, instance.alias@) ==> {
            &&& result is Ok
            &&& final(config).instances@ == old(config).instances@.push(instance)
            &&& set_active ==> (final(config).active matches Some(active) && active@
                == instance.alias@)
            &&& !set_active ==> final(config).active == old(config).active
        },
        old(config).well_formed() ==> final(config).well_formed(),
{
    let alias = instance.alias.clone();
    match find_alias(&config.instances, &alias) {
        Some(_) => Err(RemoteError::DuplicateAlias { alias }),
        None => {
            let ghost before = config.instances@;
            config.instances.push(instance);
            if set_active {
                config.active = Some(alias);
            }
            proof {
                assert(config.instances@[before.len() as int].alias@ == instance.alias@);
                if old(config).well_formed() {
                    if !set_active {
                        if old(config).active is Some {
                            let active = old(config).active->0;
                            let k = choose|k: int|
                                0 <= k < before.len() && (#[trigger] before[k]).alias@ == active@;
                            assert(config.instances@[k] == before[k]);
                        }
                    }
                }
            }
            Ok(())
        },
    }
}

proof fn filter_take_step(instances: Seq<InstanceConfig>, alias: Seq<char>, i: int)
    requires
        0 <= i < instances.len(),
    ensures
        instances.take(i + 1).filter(other_than(alias)) == if instances[i].alias@ != alias {
            instances.take(i).filter(other_than(alias)).push(instances[i])
        } else {
            instances.take(i).filter(other_than(alias))
        },
{
    reveal(Seq::filter);
    assert(instances.take(i + 1).drop_last() == instances.take(i));
}

/// Removes every instance with this alias from the store, keeping the
/// others in their order, and clears the active alias where it is the one
/// removed. An alias that is not configured changes nothing.
pub fn remove_instance(config: &mut ProfileConfig, alias: &str)
    ensures
        final(config).instances@ == old(config).instances@.filter(other_than(alias@)),
        !has_alias(final(config).instances@, alias@),
        (old(config).active matches Some(active) && active@ == alias@) ==> final(config).active
            is None,
        !(old(config).active matches Some(active) && active@ == alias@) ==> final(config).active
            == old(config).active,
        old(config).well_formed() ==> final(config).well_formed(),
{
    let alias = alias.to_owned();
    let mut kept: Vec<InstanceConfig> = Vec::new();
    let ghost mut origin: Seq<int> = Seq::empty();
    let ghost mut place: Seq<int> = Seq::empty();
    let mut i: usize = 0;
    while i < config.instances.len()
        invariant
            i <= config.instances@.len(),
            *config == *old(config),
            kept@ == config.instances@.take(i as int).filter(other_than(alias@)),
            origin.len() == kept@.len(),
            place.len() == i,
            forall|k: int|
                0 <= k < kept@.len() ==> 0 <= #[trigger] origin[k] < i && kept@[k]
                    == config.instances@[origin[k]] && kept@[k].alias@ != alias@,
            forall|a: int, b: int|
                0 <= a < b < kept@.len() ==> #[trigger] origin[a] < #[trigger] origin[b],
            forall|j: int|
                0 <= j < i && config.instances@[j].alias@ != alias@ ==> 0 <= #[trigger] place[j]
                    < kept@.len() && kept@[place[j]] == config.instances@[j],
        decreases config.instances@.len() - i,
    {
        proof {
            filter_take_step(config.instances@, alias@, i as int);
        }
        if config.instances[i].alias != alias {
            kept.push(config.instances[i].duplicate());
            proof {
                place = place.push(kept@.len() - 1);
                origin = origin.push(i as int);
            }
        } else {
            proof {
                place = place.push(0);
            }
        }
        i += 1;
    }
    proof {
        assert(config.instances@.take(i as int) == config.instances@);
    }
    let cleared = match &config.active {
        Some(active) => *active == alias,
        None => false,
    };
    if cleared {
        config.active = None;
    }
    config.instances = kept;
    proof {
        let before = old(config).instances@;
        if has_alias(kept@, alias@) {
            let k = choose|k: int| 0 <= k < kept@.len() && (#[trigger] kept@[k]).alias@ == alias@;
            assert(kept@[k] == before[origin[k]]);
        }
        if old(config).well_formed() {
            assert forall|a: int, b: int| 0 <= a < b < kept@.len() implies (
            #[trigger] kept@[a]).alias@ != (#[trigger] kept@[b]).alias@ by {
                assert(origin[a] < origin[b]);
                assert(kept@[a] == before[origin[a]]);
                assert(kept@[b] == before[origin[b]]);
            }
            if config.active is Some {
                let active = config.active->0;
                let j = choose|j: int|
                    0 <= j < before.len() && (#[trigger] before[j]).alias@ == active@;
                assert(kept@[place[j]].alias@ == active@);
            }
        }
    }
}

/// The configuration of the active instance.
///
/// Fails with `NoActiveInstance` where no alias is active, and with
/// `DanglingActiveAlias` where the active alias is not configured. Otherwise
/// returns the first instance configured under the active alias. In a
/// well-formed store an active alias always has its instance.
pub fn get_active_instance(config: &ProfileConfig) -> (result: Result<InstanceConfig, RemoteError>)
    ensures
        config.active is None ==> result == Err::<InstanceConfig, RemoteError>(
            RemoteError::NoActiveInstance,
        ),
        (config.active matches Some(active) && !has_alias(config.instances@, active@)) ==> (
        result matches Err(RemoteError::DanglingActiveAlias { alias }) && alias
            == config.active->0),
        (config.active matches Some(active) && has_alias(config.instances@, active@)) ==> (
        result matches Ok(instance) && exists|i: int|
            first_with_alias(config.instances@, config.active->0@, i) && instance
                == config.instances@[i]),
        config.well_formed() && config.active is Some ==> result is Ok,
{
    match &config.active {
        None => Err(RemoteError::NoActiveInstance),
        Some(active) => match find_alias(&config.instances, active) {
            None => Err(RemoteError::DanglingActiveAlias { alias: active.clone() }),
            Some(index) => Ok(config.instances[index].duplicate()),
        },
    }
}

} // verus!
