//! The death-message templates of the server, one per way a player can die.
//! In a template `{1}` stands for the victim, `{2}` for the attacker and
//! `{item}` for the item used.
use vstd::prelude::*;

verus! {

/// The templates, in the order in which the matcher tries them.
pub open spec fn death_templates() -> Seq<Seq<char>> {
    seq![
        "{1} fell off a ladder"@,
        "{1} fell off some vines"@,
        "{1} fell off some weeping vines"@,
        "{1} fell off some twisting vines"@,
        "{1} fell off scaffolding"@,
        "{1} fell while climbing"@,
        "{1} fell from a high place"@,
        "{1} was doomed to fall"@,
        "{1} was doomed to fall by {2}"@,
        "{1} was doomed to fall by {2} using {item}"@,
        "{1} fell too far and was finished by {2}"@,
        "{1} fell too far and was finished by {2} using {item}"@,
        "{1} was struck by lightning"@,
        "{1} was struck by lightning whilst fighting {2}"@,
        "{1} went up in flames"@,
        "{1} walked into fire whilst fighting {2}"@,
        "{1} burned to death"@,
        "{1} was burnt to a crisp whilst fighting {2}"@,
        "{1} tried to swim in lava"@,
        "{1} tried to swim in lava to escape {2}"@,
        "{1} discovered the floor was lava"@,
        "{1} walked into danger zone due to {2}"@,
        "{1} suffocated in a wall"@,
        "{1} suffocated in a wall whilst fighting {2}"@,
        "{1} was squished too much"@,
        "{1} was squashed by {2}"@,
        "{1} drowned"@,
        "{1} drowned whilst trying to escape {2}"@,
        "{1} died from dehydration"@,
        "{1} died from dehydration whilst trying to escape {2}"@,
        "{1} starved to death"@,
        "{1} starved to death whilst fighting {2}"@,
        "{1} was pricked to death"@,
        "{1} walked into a cactus whilst trying to escape {2}"@,
        "{1} died"@,
        "{1} died because of {2}"@,
        "{1} blew up"@,
        "{1} was blown up by {2}"@,
        "{1} was blown up by {2} using {item}"@,
        "{1} was killed by magic"@,
        "{1} was killed by magic whilst trying to escape {2}"@,
        "{1} was killed by even more magic"@,
        "{1} withered away"@,
        "{1} withered away whilst fighting {2}"@,
        "{1} was shot by a skull from {2}"@,
        "{1} was squashed by a falling anvil"@,
        "{1} was squashed by a falling anvil whilst fighting {2}"@,
        "{1} was squashed by a falling block"@,
        "{1} was squashed by a falling block whilst fighting {2}"@,
        "{1} was impaled on a stalagmite"@,
        "{1} was impaled on a stalagmite whilst fighting {2}"@,
        "{1} was skewered by a falling stalactite"@,
        "{1} was skewered by a falling stalactite whilst fighting {2}"@,
        "{1} was slain by {2}"@,
        "{1} was slain by {2} using {item}"@,
        "{1} was slain by {2}"@,
        "{1} was slain by {2} using {item}"@,
        "{1} was shot by {2}"@,
        "{1} was shot by {2} using {item}"@,
        "{1} was fireballed by {2}"@,
        "{1} was fireballed by {2} using {item}"@,
        "{1} was pummeled by {2}"@,
        "{1} was pummeled by {2} using {item}"@,
        "{1} was killed by {2} using magic"@,
        "{1} was killed by {2} using {item}"@,
        "{1} was killed trying to hurt {2}"@,
        "{1} was killed by {item} trying to hurt {2}"@,
        "{1} was impaled by {2}"@,
        "{1} was impaled by {2} with {item}"@,
        "{1} hit the ground too hard"@,
        "{1} hit the ground too hard whilst trying to escape {2}"@,
        "{1} fell out of the world"@,
        "{1} didn't want to live in the same world as {2}"@,
        "{1} was roasted in dragon breath"@,
        "{1} was roasted in dragon breath by {2}"@,
        "{1} experienced kinetic energy"@,
        "{1} experienced kinetic energy whilst trying to escape {2}"@,
        "{1} went off with a bang"@,
        "{1} went off with a bang whilst fighting {2}"@,
        "{1} went off with a bang due to a firework fired from {item} by {2}"@,
        "{1} was killed by Intentional Game Design"@,
        "{1} was poked to death by a sweet berry bush"@,
        "{1} was poked to death by a sweet berry bush whilst trying to escape {2}"@,
        "{1} was stung to death"@,
        "{1} was stung to death by {2}"@,
        "{1} froze to death"@,
        "{1} was frozen to death by {2}"@,
    ]
}

/// The templates as text.
pub fn death_template_list() -> (r: Vec<&'static str>)
    ensures
        r@.map_values(|t: &str| t@) == death_templates(),
{
    let r = vec![
        "{1} fell off a ladder",
        "{1} fell off some vines",
        "{1} fell off some weeping vines",
        "{1} fell off some twisting vines",
        "{1} fell off scaffolding",
        "{1} fell while climbing",
        "{1} fell from a high place",
        "{1} was doomed to fall",
        "{1} was doomed to fall by {2}",
        "{1} was doomed to fall by {2} using {item}",
        "{1} fell too far and was finished by {2}",
        "{1} fell too far and was finished by {2} using {item}",
        "{1} was struck by lightning",
        "{1} was struck by lightning whilst fighting {2}",
        "{1} went up in flames",
        "{1} walked into fire whilst fighting {2}",
        "{1} burned to death",
        "{1} was burnt to a crisp whilst fighting {2}",
        "{1} tried to swim in lava",
        "{1} tried to swim in lava to escape {2}",
        "{1} discovered the floor was lava",
        "{1} walked into danger zone due to {2}",
        "{1} suffocated in a wall",
        "{1} suffocated in a wall whilst fighting {2}",
        "{1} was squished too much",
        "{1} was squashed by {2}",
        "{1} drowned",
        "{1} drowned whilst trying to escape {2}",
        "{1} died from dehydration",
        "{1} died from dehydration whilst trying to escape {2}",
        "{1} starved to death",
        "{1} starved to death whilst fighting {2}",
        "{1} was pricked to death",
        "{1} walked into a cactus whilst trying to escape {2}",
        "{1} died",
        "{1} died because of {2}",
        "{1} blew up",
        "{1} was blown up by {2}",
        "{1} was blown up by {2} using {item}",
        "{1} was killed by magic",
        "{1} was killed by magic whilst trying to escape {2}",
        "{1} was killed by even more magic",
        "{1} withered away",
        "{1} withered away whilst fighting {2}",
        "{1} was shot by a skull from {2}",
        "{1} was squashed by a falling anvil",
        "{1} was squashed by a falling anvil whilst fighting {2}",
        "{1} was squashed by a falling block",
        "{1} was squashed by a falling block whilst fighting {2}",
        "{1} was impaled on a stalagmite",
        "{1} was impaled on a stalagmite whilst fighting {2}",
        "{1} was skewered by a falling stalactite",
        "{1} was skewered by a falling stalactite whilst fighting {2}",
        "{1} was slain by {2}",
        "{1} was slain by {2} using {item}",
        "{1} was slain by {2}",
        "{1} was slain by {2} using {item}",
        "{1} was shot by {2}",
        "{1} was shot by {2} using {item}",
        "{1} was fireballed by {2}",
        "{1} was fireballed by {2} using {item}",
        "{1} was pummeled by {2}",
        "{1} was pummeled by {2} using {item}",
        "{1} was killed by {2} using magic",
        "{1} was killed by {2} using {item}",
        "{1} was killed trying to hurt {2}",
        "{1} was killed by {item} trying to hurt {2}",
        "{1} was impaled by {2}",
        "{1} was impaled by {2} with {item}",
        "{1} hit the ground too hard",
        "{1} hit the ground too hard whilst trying to escape {2}",
        "{1} fell out of the world",
        "{1} didn't want to live in the same world as {2}",
        "{1} was roasted in dragon breath",
        "{1} was roasted in dragon breath by {2}",
        "{1} experienced kinetic energy",
        "{1} experienced kinetic energy whilst trying to escape {2}",
        "{1} went off with a bang",
        "{1} went off with a bang whilst fighting {2}",
        "{1} went off with a bang due to a firework fired from {item} by {2}",
        "{1} was killed by Intentional Game Design",
        "{1} was poked to death by a sweet berry bush",
        "{1} was poked to death by a sweet berry bush whilst trying to escape {2}",
        "{1} was stung to death",
        "{1} was stung to death by {2}",
        "{1} froze to death",
        "{1} was frozen to death by {2}",
    ];
    assert(r@.map_values(|t: &str| t@) =~= death_templates());
    r
}

} // verus!
