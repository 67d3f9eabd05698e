//! The description of the LoongArch64 target that the code generator's build
//! reads: its name and the boolean settings it offers.

use vstd::prelude::*;

verus! {

/// A boolean setting: its name, its description, a longer comment, and the
/// value it has when nobody sets it.
#[derive(Clone, Debug)]
pub struct BoolSetting {
    pub name: String,
    pub description: String,
    pub comment: String,
    pub default: bool,
}

/// A named group of boolean settings, in the order they were added.
#[derive(Clone, Debug)]
pub struct SettingGroup {
    pub name: String,
    pub bools: Vec<BoolSetting>,
}

/// A target ISA as the code generator describes it.
#[derive(Clone, Debug)]
pub struct IsaDefinition {
    pub name: String,
    pub settings: SettingGroup,
}

impl SettingGroup {
    /// An empty group named `name`.
    pub fn new(name: &str) -> (r: SettingGroup)
        ensures
            r.name@ == name@,
            r.bools@.len() == 0,
    {
        SettingGroup { name: String::from_str(name), bools: Vec::new() }
    }

    /// Adds a boolean setting after those already in the group.
    pub fn add_bool(&mut self, name: &str, description: &str, comment: &str, default: bool)
        ensures
            final(self).name == old(self).name,
            final(self).bools@.len() == old(self).bools@.len() + 1,
            forall|i: int|
                0 <= i < old(self).bools@.len() ==> #[trigger] final(self).bools@[i]
                    == old(self).bools@[i],
            final(self).bools@.last().name@ == name@,
            final(self).bools@.last().description@ == description@,
            final(self).bools@.last().comment@ == comment@,
            final(self).bools@.last().default == default,
    {
        let setting = BoolSetting {
            name: String::from_str(name),
            description: String::from_str(description),
            comment: String::from_str(comment),
            default,
        };
        self.bools.push(setting);
    }
}

/// The LoongArch64 target: named `loongarch64`, with two settings that are
/// on unless turned off, `has_lsx` for the SIMD extension and `has_lasx` for
/// the advanced SIMD extension.
pub fn define() -> (r: IsaDefinition)
    ensures
        r.name@ == "loongarch64"@,
        r.settings.name@ == "loongarch64"@,
        r.settings.bools@.len() == 2,
        r.settings.bools@[0].name@ == "has_lsx"@,
        r.settings.bools@[0].description@ == "Loongson SIMD Extension support."@,
        r.settings.bools@[0].comment@ == ""@,
        r.settings.bools@[0].default,
        r.settings.bools@[1].name@ == "has_lasx"@,
        r.settings.bools@[1].description@ == "Loongson Advanced SIMD Extension support."@,
        r.settings.bools@[1].comment@ == ""@,
        r.settings.bools@[1].default,
{
    let mut settings = SettingGroup::new("loongarch64");
    settings.add_bool("has_lsx", "Loongson SIMD Extension support.", "", true);
    settings.add_bool("has_lasx", "Loongson Advanced SIMD Extension support.", "", true);
    IsaDefinition { name: String::from_str("loongarch64"), settings }
}

} // verus!
