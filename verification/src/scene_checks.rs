//! Checks that a scene built from a world holds what the world holds: the
//! same number of entities and resources, and every component that is not
//! expressly ignored.

use crate::text::{
    decimal, has_prefix, joined, push_decimal, push_joined, push_signed_decimal, signed_decimal,
    starts_with, texts,
};
use vstd::prelude::*;
use vstd::string::*;

verus! {

/// Which checks are made, and what they let pass.
#[derive(Debug, Clone)]
pub struct DynamicSceneChecks {
    /// Check the number of resources.
    pub resource_checks: bool,
    /// Check the number of entities.
    pub entity_checks: bool,
    /// Check that each component is in the scene.
    pub component_checks: bool,
    /// The number of resources of the world that are meant to be missing from
    /// the scene.
    pub num_ignored_resources: usize,
    /// Components whose name starts with one of these may be missing.
    pub allowed_ignores: Vec<String>,
}

/// A component of an entity of the world, and whether the scene holds it too.
#[derive(Debug, Clone)]
pub struct ComponentPresence {
    pub name: String,
    pub in_scene: bool,
}

/// What was counted in a world and in the scene built from it.
#[derive(Debug, Clone)]
pub struct SceneObservation {
    pub entities_world: usize,
    pub entities_scene: usize,
    pub resources_world: usize,
    pub resources_scene: usize,
    pub components: Vec<ComponentPresence>,
}

/// A scene that does not match its world.
#[derive(Debug, Clone)]
pub struct SceneMismatch {
    /// The name of the scene.
    pub name: String,
    /// What was found, one text for each issue, in the order of finding.
    pub issues: Vec<String>,
}

/// What the issue of an entity count says.
pub open spec fn entity_issue(world: nat, scene: nat) -> Seq<char> {
    "Entity count mismatch: Expected "@ + decimal(world) + ", got "@ + decimal(scene)
}

/// What the issue of a resource count that is off by `delta` says.
pub open spec fn resource_issue(delta: int) -> Seq<char> {
    "Resource count mismatch, received is off by "@ + signed_decimal(delta)
        + ".\nIf this was intentional add "@ + signed_decimal(delta)
        + " to `DynamicSceneChecks::num_ignored_resources`."@
}

/// What the issue of a component that the scene lacks says.
pub open spec fn component_issue(name: Seq<char>) -> Seq<char> {
    "Unregistered component: "@ + name
}

/// What a mismatch says: the issues, one on each line, then the scene's name
/// and the number of issues.
pub open spec fn mismatch_message(name: Seq<char>, issues: Seq<Seq<char>>) -> Seq<char> {
    joined(issues, "\n"@) + "\n"@ + name + ": "@ + decimal(issues.len()) + " issues found"@
}

impl SceneMismatch {
    /// What the mismatch says.
    pub fn message(&self) -> (message: String)
        ensures
            message@ == mismatch_message(self.name@, texts(self.issues@)),
    {
        let mut message = String::new();
        push_joined(&mut message, &self.issues, "\n");
        message.append("\n");
        message.append(self.name.as_str());
        message.append(": ");
        push_decimal(&mut message, self.issues.len());
        message.append(" issues found");
        assert(message@ =~= mismatch_message(self.name@, texts(self.issues@)));
        message
    }
}

impl Default for DynamicSceneChecks {
    /// All checks are made; the resources that the default plugins bring are
    /// ignored by their number.
    fn default() -> (checks: Self)
        ensures
            checks.resource_checks,
            checks.entity_checks,
            checks.component_checks,
            checks.num_ignored_resources == 176,
            texts(checks.allowed_ignores@) == seq![
                "bevy_text::text::CosmicBuffer"@,
                "beet_flow::observers::action_observer_map::ActionObserverMap"@,
                "bevy_ecs::observer::entity_observer::ObservedBy"@,
            ],
    {
        let mut allowed_ignores: Vec<String> = Vec::new();
        allowed_ignores.push(String::from_str("bevy_text::text::CosmicBuffer"));
        allowed_ignores.push(
            String::from_str("beet_flow::observers::action_observer_map::ActionObserverMap"),
        );
        allowed_ignores.push(String::from_str("bevy_ecs::observer::entity_observer::ObservedBy"));
        assert(texts(allowed_ignores@) =~= seq![
            "bevy_text::text::CosmicBuffer"@,
            "beet_flow::observers::action_observer_map::ActionObserverMap"@,
            "bevy_ecs::observer::entity_observer::ObservedBy"@,
        ]);
        DynamicSceneChecks {
            resource_checks: true,
            entity_checks: true,
            component_checks: true,
            num_ignored_resources: 176,
            allowed_ignores,
        }
    }
}

impl DynamicSceneChecks {
    /// The default checks.
    pub fn new() -> (checks: Self)
        ensures
            checks.resource_checks,
            checks.entity_checks,
            checks.component_checks,
            checks.num_ignored_resources == 176,
            texts(checks.allowed_ignores@) == seq![
                "bevy_text::text::CosmicBuffer"@,
                "beet_flow::observers::action_observer_map::ActionObserverMap"@,
                "bevy_ecs::observer::entity_observer::ObservedBy"@,
            ],
    {
        Self::default()
    }

    /// The same checks, with the check of the resource count switched.
    pub fn with_asset_checks(self, checks: bool) -> (changed: Self)
        ensures
            changed == (DynamicSceneChecks { resource_checks: checks, ..self }),
    {
        let mut changed = self;
        changed.resource_checks = checks;
        changed
    }

    /// The same checks, with the check of the entity count switched.
    pub fn with_entity_checks(self, checks: bool) -> (changed: Self)
        ensures
            changed == (DynamicSceneChecks { entity_checks: checks, ..self }),
    {
        let mut changed = self;
        changed.entity_checks = checks;
        changed
    }

    /// The same checks, with the check of the components switched.
    pub fn with_component_checks(self, checks: bool) -> (changed: Self)
        ensures
            changed == (DynamicSceneChecks { component_checks: checks, ..self }),
    {
        let mut changed = self;
        changed.component_checks = checks;
        changed
    }

    /// The same checks, with other components allowed to be missing.
    pub fn with_allowed_ignores(self, ignores: Vec<String>) -> (changed: Self)
        ensures
            changed == (DynamicSceneChecks { allowed_ignores: ignores, ..self }),
    {
        let mut changed = self;
        changed.allowed_ignores = ignores;
        changed
    }

    /// The same checks, with another number of resources ignored.
    pub fn with_num_ignored_resources(self, num: usize) -> (changed: Self)
        ensures
            changed == (DynamicSceneChecks { num_ignored_resources: num, ..self }),
    {
        let mut changed = self;
        changed.num_ignored_resources = num;
        changed
    }

    /// The number of ignored resources after `count` more, kept within what a
    /// count can be.
    pub open spec fn ignored_after(self, count: int) -> nat {
        let sum = self.num_ignored_resources + count;
        if sum < 0 {
            0
        } else if sum > usize::MAX {
            usize::MAX as nat
        } else {
            sum as nat
        }
    }

    /// The same checks, with `count` more resources ignored; fewer where
    /// `count` is negative. The number stays within what a count can be.
    pub fn add_ignored_resources(self, count: isize) -> (changed: Self)
        ensures
            changed == (DynamicSceneChecks {
                num_ignored_resources: self.ignored_after(count as int) as usize,
                ..self
            }),
    {
        let mut changed = self;
        let num = changed.num_ignored_resources;
        if count >= 0 {
            let more = count as usize;
            changed.num_ignored_resources = if num > usize::MAX - more {
                usize::MAX
            } else {
                num + more
            };
        } else {
            let fewer: usize = if count == isize::MIN {
                (isize::MAX as usize) + 1
            } else {
                (-count) as usize
            };
            changed.num_ignored_resources = if num < fewer {
                0
            } else {
                num - fewer
            };
        }
        changed
    }

    /// Whether a component named `name` may be missing from the scene.
    pub open spec fn allows(self, name: Seq<char>) -> bool {
        exists|i: int|
            0 <= i < self.allowed_ignores@.len() && has_prefix(
                name,
                (#[trigger] self.allowed_ignores@[i])@,
            )
    }

    /// Whether a component named `name` may be missing from the scene.
    pub fn is_allowed_ignore(&self, name: &str) -> (allowed: bool)
        ensures
            allowed == self.allows(name@),
    {
        let mut i: usize = 0;
        while i < self.allowed_ignores.len()
            invariant
                i <= self.allowed_ignores@.len(),
                forall|j: int|
                    0 <= j < i ==> !has_prefix(name@, (#[trigger] self.allowed_ignores@[j])@),
            decreases self.allowed_ignores@.len() - i,
        {
            if starts_with(name, self.allowed_ignores[i].as_str()) {
                return true;
            }
            i += 1;
        }
        false
    }

    /// The issues of the entity count.
    pub open spec fn entity_issues(world: nat, scene: nat) -> Seq<Seq<char>> {
        if world != scene {
            seq![entity_issue(world, scene)]
        } else {
            Seq::empty()
        }
    }

    /// Compares the number of entities of the world with that of the scene.
    pub fn check_entities(&self, num_entities_world: usize, num_entities_scene: usize) -> (issues:
        Vec<String>)
        ensures
            texts(issues@) == Self::entity_issues(
                num_entities_world as nat,
                num_entities_scene as nat,
            ),
    {
        let mut issues: Vec<String> = Vec::new();
        if num_entities_world != num_entities_scene {
            let mut issue = String::from_str("Entity count mismatch: Expected ");
            push_decimal(&mut issue, num_entities_world);
            issue.append(", got ");
            push_decimal(&mut issue, num_entities_scene);
            issues.push(issue);
        }
        assert(texts(issues@) =~= Self::entity_issues(
            num_entities_world as nat,
            num_entities_scene as nat,
        ));
        issues
    }

    /// By how many the resources of the world, less the ignored ones, exceed
    /// those of the scene.
    pub open spec fn resource_delta(self, world: nat, scene: nat) -> int {
        world - self.num_ignored_resources - scene
    }

    /// The issues of the resource count.
    pub open spec fn resource_issues(self, world: nat, scene: nat) -> Seq<Seq<char>> {
        if self.resource_delta(world, scene) != 0 {
            seq![resource_issue(self.resource_delta(world, scene))]
        } else {
            Seq::empty()
        }
    }

    /// Compares the number of resources of the world, less the ignored ones,
    /// with that of the scene.
    pub fn check_resources(&self, num_resources_world: usize, num_resources_scene: usize) -> (issues:
        Vec<String>)
        ensures
            texts(issues@) == self.resource_issues(
                num_resources_world as nat,
                num_resources_scene as nat,
            ),
    {
        let mut issues: Vec<String> = Vec::new();
        let delta: i128 = num_resources_world as i128 - self.num_ignored_resources as i128
            - num_resources_scene as i128;
        if delta != 0 {
            let mut issue = String::from_str("Resource count mismatch, received is off by ");
            push_signed_decimal(&mut issue, delta);
            issue.append(".\nIf this was intentional add ");
            push_signed_decimal(&mut issue, delta);
            issue.append(" to `DynamicSceneChecks::num_ignored_resources`.");
            issues.push(issue);
        }
        assert(texts(issues@) =~= self.resource_issues(
            num_resources_world as nat,
            num_resources_scene as nat,
        ));
        issues
    }

    /// The issues of the first `count` of `components`, in their order: one for
    /// each component that the scene lacks and that may not be missing.
    pub open spec fn component_issues(self, components: Seq<ComponentPresence>, count: nat) -> Seq<
        Seq<char>,
    >
        decreases count,
    {
        if count == 0 || count > components.len() {
            Seq::empty()
        } else {
            let earlier = self.component_issues(components, (count - 1) as nat);
            let component = components[count - 1];
            if !component.in_scene && !self.allows(component.name@) {
                earlier.push(component_issue(component.name@))
            } else {
                earlier
            }
        }
    }

    /// Looks for components of the world that the scene lacks.
    pub fn check_components(&self, components: &Vec<ComponentPresence>) -> (issues: Vec<String>)
        ensures
            texts(issues@) == self.component_issues(components@, components@.len()),
    {
        let mut issues: Vec<String> = Vec::new();
        let mut i: usize = 0;
        assert(texts(issues@) =~= self.component_issues(components@, 0));
        while i < components.len()
            invariant
                i <= components@.len(),
                texts(issues@) == self.component_issues(components@, i as nat),
            decreases components@.len() - i,
        {
            let component = &components[i];
            if !component.in_scene && !self.is_allowed_ignore(component.name.as_str()) {
                let mut issue = String::from_str("Unregistered component: ");
                issue.append(component.name.as_str());
                let ghost before = texts(issues@);
                issues.push(issue);
                assert(texts(issues@) =~= before.push(component_issue(component.name@)));
            }
            i += 1;
        }
        issues
    }

    /// All issues of the checks that are switched on: entities first, then
    /// resources, then components.
    pub open spec fn all_issues(self, observed: SceneObservation) -> Seq<Seq<char>> {
        (if self.entity_checks {
            Self::entity_issues(observed.entities_world as nat, observed.entities_scene as nat)
        } else {
            Seq::empty()
        }) + (if self.resource_checks {
            self.resource_issues(observed.resources_world as nat, observed.resources_scene as nat)
        } else {
            Seq::empty()
        }) + (if self.component_checks {
            self.component_issues(observed.components@, observed.components@.len())
        } else {
            Seq::empty()
        })
    }

    /// Makes the checks that are switched on. The scene matches if no check
    /// finds an issue; otherwise the error holds all issues found.
    pub fn assert_scene_match(&self, name: &str, observed: &SceneObservation) -> (outcome: Result<
        (),
        SceneMismatch,
    >)
        ensures
            outcome.is_ok() == (self.all_issues(*observed).len() == 0),
            outcome matches Err(mismatch) ==> mismatch.name@ == name@ && texts(mismatch.issues@)
                == self.all_issues(*observed),
    {
        let mut issues: Vec<String> = Vec::new();
        assert(texts(issues@) =~= Seq::<Seq<char>>::empty());
        if self.entity_checks {
            let mut found = self.check_entities(observed.entities_world, observed.entities_scene);
            let ghost before = issues@;
            let ghost added = found@;
            issues.append(&mut found);
            assert(texts(before + added) =~= texts(before) + texts(added));
        }
        if self.resource_checks {
            let mut found = self.check_resources(observed.resources_world, observed.resources_scene);
            let ghost before = issues@;
            let ghost added = found@;
            issues.append(&mut found);
            assert(texts(before + added) =~= texts(before) + texts(added));
        }
        if self.component_checks {
            let mut found = self.check_components(&observed.components);
            let ghost before = issues@;
            let ghost added = found@;
            issues.append(&mut found);
            assert(texts(before + added) =~= texts(before) + texts(added));
        }
        assert(texts(issues@) =~= self.all_issues(*observed));
        if issues.len() > 0 {
            Err(SceneMismatch { name: String::from_str(name), issues })
        } else {
            Ok(())
        }
    }
}

} // verus!
