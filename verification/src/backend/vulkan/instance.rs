//! What a Vulkan instance is created with.

use vstd::prelude::*;

use crate::utils::text::{contains_text, texts};

use super::version::{packing_keeps_order, packing_round_trip, Version};
use super::{get_env_or_max_version, wanted_version, Extension, LoadError};

verus! {

/// Why an instance could not be created.
#[derive(Clone, Copy, Debug, PartialEq, Eq, Structural)]
pub enum InstanceError {
    /// Only the first version of Vulkan is available.
    UnsupportedVersion,
    /// The Vulkan library could not be loaded or asked.
    Load(LoadError),
    /// Vulkan API error.
    Vk(i32),
}

/// What an application tells the Vulkan implementation of itself.
#[derive(Debug)]
pub struct AppInfo {
    /// Name of the application.
    pub name: String,
    /// Version of the application.
    pub version: Version,
}

/// What an instance is created with.
#[derive(Debug)]
pub struct InstancePlan {
    pub api_version: Version,
    /// Whether the validation layer is enabled.
    pub validation: bool,
    /// Whether messages of the implementation are listened to.
    pub debug_utils: bool,
    /// The names of the extensions to enable.
    pub extensions: Vec<String>,
    pub engine_version: u32,
    pub application_version: Option<u32>,
}

/// The lower of two versions, compared as packed numbers.
pub open spec fn lower(a: Version, b: Version) -> Version {
    Version::spec_from_raw(
        if a.spec_to_raw() <= b.spec_to_raw() {
            a.spec_to_raw()
        } else {
            b.spec_to_raw()
        },
    )
}

/// The version that an instance uses.
pub open spec fn version_for(
    reported: Result<Option<u32>, LoadError>,
    value: Option<Seq<char>>,
    max_version: Version,
) -> Result<Version, InstanceError> {
    match reported {
        Err(_) => Err(InstanceError::Load(LoadError)),
        Ok(raw) => {
            let available = match raw {
                Some(raw) => Version::spec_from_raw(raw),
                None => Version::numbered(1, 0),
            };
            if available == Version::numbered(1, 0) {
                Err(InstanceError::UnsupportedVersion)
            } else {
                Ok(lower(available, wanted_version(value, max_version)))
            }
        },
    }
}

/// The text of a variable, if it is set.
pub open spec fn value_of(value: Option<&String>) -> Option<Seq<char>> {
    match value {
        Some(text) => Some(text@),
        None => None,
    }
}

/// Decides which version an instance uses.
///
/// `reported` is the highest version of the library, or nothing where the library is too old
/// to tell; the caller asks for at most `max_version`, which has to be supported.
pub fn instance_version(
    reported: Result<Option<u32>, LoadError>,
    value: Option<&String>,
    max_version: Version,
) -> (r: Result<Version, InstanceError>)
    requires
        !max_version.before(Version::numbered(1, 1)),
    ensures
        r == version_for(reported, value_of(value), max_version),
{
    let wanted = get_env_or_max_version(value, max_version);
    let available = match reported {
        Err(_) => {
            return Err(InstanceError::Load(LoadError));
        },
        Ok(Some(raw)) => Version::from_raw(raw),
        Ok(None) => Version::version_1_0(),
    };
    if available == Version::version_1_0() {
        return Err(InstanceError::UnsupportedVersion);
    }
    let a: u32 = available.to_raw();
    let b: u32 = wanted.to_raw();
    Ok(Version::from_raw(if a <= b { a } else { b }))
}

/// The version of an instance is neither above what the library has nor above what was asked
/// for, and it is one of the two.
pub proof fn lower_is_minimum(a: u32, b: Version)
    requires
        b.packable(),
    ensures
        ({
            let available = Version::spec_from_raw(a);
            let both = lower(available, b);
            &&& !available.before(both)
            &&& !b.before(both)
            &&& both == available || both == b
        }),
{
    packing_round_trip(b, a);
    packing_keeps_order(a, b.spec_to_raw());
    packing_keeps_order(b.spec_to_raw(), a);
}

impl InstancePlan {
    /// The instance has what was asked for, and where available the validation layer (in debug
    /// builds) and the debug messages.
    pub open spec fn follows(
        self,
        api_version: Version,
        layers: Seq<String>,
        available: Seq<String>,
        requested: Seq<String>,
        debug_assertions: bool,
        app: Option<&AppInfo>,
    ) -> bool {
        &&& self.api_version == api_version
        &&& self.validation == (debug_assertions && texts(layers).contains(
            "VK_LAYER_KHRONOS_validation"@,
        ))
        &&& self.debug_utils == texts(available).contains(Extension::DebugUtils.spec_name())
        &&& texts(self.extensions@) == texts(requested) + (if self.debug_utils {
            seq![Extension::DebugUtils.spec_name()]
        } else {
            Seq::empty()
        })
        &&& self.engine_version == Version::numbered(0, 3).spec_to_raw()
        &&& self.application_version == (match app {
            Some(info) => Some(info.version.spec_to_raw()),
            None => None::<u32>,
        })
    }
}

/// Decides which layers and extensions an instance is created with: those that were asked for,
/// and where available the validation layer (in debug builds) and the debug messages.
pub fn plan_instance(
    api_version: Version,
    layers: &Vec<String>,
    available: &Vec<String>,
    requested: &Vec<String>,
    debug_assertions: bool,
    app: Option<&AppInfo>,
) -> (plan: InstancePlan)
    ensures
        plan.follows(api_version, layers@, available@, requested@, debug_assertions, app),
{
    let validation: bool = debug_assertions && contains_text(layers, "VK_LAYER_KHRONOS_validation");
    let debug_utils: bool = contains_text(available, Extension::DebugUtils.name());
    let mut extensions: Vec<String> = Vec::new();
    for i in 0..requested.len()
        invariant
            texts(extensions@) == texts(requested@).take(i as int),
    {
        let ghost before = extensions@;
        extensions.push(requested[i].clone());
        assert(texts(extensions@) =~= texts(before).push(requested@[i as int]@));
        assert(texts(extensions@) =~= texts(requested@).take(i as int + 1));
    }
    assert(texts(extensions@) =~= texts(requested@));
    if debug_utils {
        let ghost before = extensions@;
        extensions.push(Extension::DebugUtils.name().to_owned());
        assert(texts(extensions@) =~= texts(before) + seq![Extension::DebugUtils.spec_name()]);
    }
    assert(texts(requested@) + Seq::<Seq<char>>::empty() =~= texts(requested@));
    let application_version: Option<u32> = match app {
        Some(info) => Some(info.version.to_raw()),
        None => None,
    };
    InstancePlan {
        api_version,
        validation,
        debug_utils,
        extensions,
        engine_version: Version::smithay().to_raw(),
        application_version,
    }
}

/// An instance of Vulkan.
#[derive(Debug)]
pub struct Instance {
    pub version: Version,
    pub enabled_extensions: Vec<String>,
    /// Whether messages of the implementation are listened to.
    pub debug_messenger: bool,
}

impl Instance {
    /// What an instance with some additional extensions is created with. The library may fail
    /// to tell its version, its layers or its extensions, and is asked in this order.
    pub fn with_extensions(
        max_version: Version,
        app: Option<&AppInfo>,
        extensions: &Vec<String>,
        value: Option<&String>,
        reported: Result<Option<u32>, LoadError>,
        layers: Result<Vec<String>, LoadError>,
        available: Result<Vec<String>, LoadError>,
        debug_assertions: bool,
    ) -> (r: Result<InstancePlan, InstanceError>)
        requires
            !max_version.before(Version::numbered(1, 1)),
        ensures
            match (version_for(reported, value_of(value), max_version), layers, available) {
                (Err(error), _, _) => r == Err::<InstancePlan, InstanceError>(error),
                (Ok(_), Err(_), _) | (Ok(_), Ok(_), Err(_)) => r == Err::<
                    InstancePlan,
                    InstanceError,
                >(InstanceError::Load(LoadError)),
                (Ok(version), Ok(layers), Ok(available)) => r is Ok && r->Ok_0.follows(
                    version,
                    layers@,
                    available@,
                    extensions@,
                    debug_assertions,
                    app,
                ),
            },
    {
        let version = match instance_version(reported, value, max_version) {
            Ok(version) => version,
            Err(error) => {
                return Err(error);
            },
        };
        match (layers, available) {
            (Ok(layers), Ok(available)) => Ok(
                plan_instance(version, &layers, &available, extensions, debug_assertions, app),
            ),
            _ => Err(InstanceError::Load(LoadError)),
        }
    }

    /// What came of the creation: `created` is that of the instance, `messenger` that of the
    /// listener for messages, which is created next if there is one. Tells as well whether the
    /// instance has to be destroyed again.
    pub fn from_plan(
        plan: InstancePlan,
        created: Result<(), i32>,
        messenger: Result<(), i32>,
    ) -> (r: (Result<Instance, InstanceError>, bool))
        ensures
            match (created, messenger) {
                (Err(code), _) => r.0 == Err::<Instance, InstanceError>(InstanceError::Vk(code))
                    && !r.1,
                (Ok(_), Err(code)) if plan.debug_utils => r.0 == Err::<Instance, InstanceError>(
                    InstanceError::Vk(code),
                ) && r.1,
                _ => r.0 == Ok::<Instance, InstanceError>(
                    Instance {
                        version: plan.api_version,
                        enabled_extensions: plan.extensions,
                        debug_messenger: plan.debug_utils,
                    },
                ) && !r.1,
            },
    {
        if let Err(code) = created {
            return (Err(InstanceError::Vk(code)), false);
        }
        if plan.debug_utils {
            if let Err(code) = messenger {
                return (Err(InstanceError::Vk(code)), true);
            }
        }
        (
            Ok(
                Instance {
                    version: plan.api_version,
                    enabled_extensions: plan.extensions,
                    debug_messenger: plan.debug_utils,
                },
            ),
            false,
        )
    }

    /// The version of Vulkan that the instance was created for.
    pub fn api_version(&self) -> (version: Version)
        ensures
            version == self.version,
    {
        self.version
    }

    /// The names of the enabled extensions.
    pub fn enabled_extensions(&self) -> (extensions: &Vec<String>)
        ensures
            *extensions == self.enabled_extensions,
    {
        &self.enabled_extensions
    }

    /// Whether an extension is enabled.
    pub fn is_extension_enabled(&self, extension: &str) -> (r: bool)
        ensures
            r == texts(self.enabled_extensions@).contains(extension@),
    {
        contains_text(&self.enabled_extensions, extension)
    }
}

/// An instance needs a library above the first version. It then uses the version of the library or
/// the one that is asked for, whichever is lower.
pub proof fn instance_uses_the_lower_version(
    reported: Result<Option<u32>, LoadError>,
    value: Option<Seq<char>>,
    max_version: Version,
)
    requires
        max_version.packable(),
    ensures
        ({
            let r = version_for(reported, value, max_version);
            let wanted = wanted_version(value, max_version);
            &&& reported is Err ==> r == Err::<Version, InstanceError>(
                InstanceError::Load(LoadError),
            )
            &&& reported is Ok && reported->Ok_0 is None ==> r == Err::<Version, InstanceError>(
                InstanceError::UnsupportedVersion,
            )
            &&& reported is Ok && reported->Ok_0 is Some ==> {
                let available = Version::spec_from_raw(reported->Ok_0->0);
                &&& r is Ok <==> available != Version::numbered(1, 0)
                &&& r matches Ok(version) ==> {
                    &&& version == available || version == wanted
                    &&& !available.before(version)
                    &&& !wanted.before(version)
                }
                &&& r matches Err(error) ==> error is UnsupportedVersion
            }
        }),
{
    if let Ok(Some(raw)) = reported {
        lower_is_minimum(raw, wanted_version(value, max_version));
    }
}

/// An instance enables every extension that is asked for, in order, and behind them only the debug
/// messages, exactly if the library has them; it has the validation layer only in debug builds, and
/// then exactly if the library has it.
pub proof fn instance_enables_what_is_asked_for(
    plan: InstancePlan,
    api_version: Version,
    layers: Seq<String>,
    available: Seq<String>,
    requested: Seq<String>,
    debug_assertions: bool,
    app: Option<&AppInfo>,
    i: int,
)
    requires
        plan.follows(api_version, layers, available, requested, debug_assertions, app),
    ensures
        plan.api_version == api_version,
        0 <= i < requested.len() ==> plan.extensions@[i]@ == requested[i]@,
        plan.debug_utils <==> texts(available).contains("VK_EXT_debug_utils"@),
        plan.extensions@.len() == requested.len() + (if plan.debug_utils {
            1int
        } else {
            0
        }),
        plan.debug_utils ==> plan.extensions@.last()@ == "VK_EXT_debug_utils"@,
        plan.validation ==> debug_assertions,
        debug_assertions ==> (plan.validation <==> texts(layers).contains(
            "VK_LAYER_KHRONOS_validation"@,
        )),
        plan.application_version is Some <==> app is Some,
{
    let all = texts(plan.extensions@);
    assert(all.len() == plan.extensions@.len());
    if 0 <= i < requested.len() {
        assert(all[i] == texts(requested)[i]);
    }
    if plan.debug_utils {
        assert(all[all.len() - 1] == plan.extensions@.last()@);
    }
}

/// An instance that was created has what it was planned with. If messages are to be listened to and
/// that fails, the instance is destroyed again; an instance that was not created is not.
pub proof fn failed_instance_is_destroyed(
    plan: InstancePlan,
    created: Result<(), i32>,
    messenger: Result<(), i32>,
    r: (Result<Instance, InstanceError>, bool),
)
    requires
        call_ensures(Instance::from_plan, (plan, created, messenger), r),
    ensures
        r.0 is Ok <==> created is Ok && (plan.debug_utils ==> messenger is Ok),
        r.1 <==> created is Ok && r.0 is Err,
        created matches Err(code) ==> r.0 == Err::<Instance, InstanceError>(InstanceError::Vk(code)),
        r.1 ==> messenger is Err && r.0 == Err::<Instance, InstanceError>(
            InstanceError::Vk(messenger->Err_0),
        ),
        r.0 matches Ok(instance) ==> {
            &&& instance.version == plan.api_version
            &&& instance.enabled_extensions == plan.extensions
            &&& instance.debug_messenger <==> plan.debug_utils
        },
{
}

} // verus!
