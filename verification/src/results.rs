//! What an evaluation returns.
//!
//! The numbers that the model computes are placed into one flat record per mode;
//! none of them is changed on the way. A record lists its fields by name, in a fixed
//! order: the star rating of the whole chart, the star rating of the part that was
//! played, the performance value, then what the mode adds, then the chart's
//! attributes under the mod mask where the caller supplied them.
//!
//! The library never computes with these numbers: they are values of the caller's
//! number type `N`.

use vstd::prelude::*;

verus! {

/// The name of a field of a result.
#[derive(Clone, Copy, Debug, PartialEq, Eq, Structural)]
pub enum Field {
    TotalStars,
    PartialStars,
    Pp,
    MaxPp,
    MaxCombo,
    Ar,
    Cs,
    Od,
    Hp,
    ClockRate,
}

/// The value of a field of a result: a number of the model, or a count.
#[derive(Clone, Copy, Debug, PartialEq)]
pub enum Value<N> {
    Number(N),
    Count(usize),
}

/// The attributes of a chart under a mod mask.
#[derive(Clone, Copy, Debug, PartialEq)]
pub struct Attributes<N> {
    /// Approach rate.
    pub ar: N,
    /// Circle size, or the number of keys.
    pub cs: N,
    /// Overall difficulty.
    pub od: N,
    /// Health drain.
    pub hp: N,
    /// The rate at which the chart is played.
    pub clock_rate: N,
}

/// What one run of the model yields in a mode that counts combo.
#[derive(Clone, Copy, Debug, PartialEq)]
pub struct Performance<N> {
    /// The performance value.
    pub pp: N,
    /// The star rating of the part of the chart that the run was scoped to.
    pub stars: N,
    /// The longest combo that the chart allows.
    pub max_combo: usize,
}

/// What one run of the model yields in osu!mania, where no combo is counted.
#[derive(Clone, Copy, Debug, PartialEq)]
pub struct ManiaPerformance<N> {
    /// The performance value.
    pub pp: N,
    /// The star rating of the part of the chart that the run was scoped to.
    pub stars: N,
}

/// The result of evaluating an osu!standard score.
#[derive(Clone, Copy, Debug, PartialEq)]
pub struct StdResults<N> {
    pub total_stars: N,
    pub partial_stars: N,
    pub pp: N,
    pub max_pp: N,
    pub max_combo: usize,
    pub attributes: Option<Attributes<N>>,
}

/// The result of evaluating an osu!taiko score.
#[derive(Clone, Copy, Debug, PartialEq)]
pub struct TaikoResults<N> {
    pub total_stars: N,
    pub partial_stars: N,
    pub pp: N,
    pub max_combo: usize,
    pub attributes: Option<Attributes<N>>,
}

/// The result of evaluating an osu!mania score.
#[derive(Clone, Copy, Debug, PartialEq)]
pub struct ManiaResults<N> {
    pub total_stars: N,
    pub partial_stars: N,
    pub pp: N,
    pub attributes: Option<Attributes<N>>,
}

/// The result of evaluating an osu!catch score.
#[derive(Clone, Copy, Debug, PartialEq)]
pub struct CatchResults<N> {
    pub total_stars: N,
    pub partial_stars: N,
    pub pp: N,
    pub max_combo: usize,
    pub attributes: Option<Attributes<N>>,
}

impl Field {
    /// The name under which the field is returned.
    pub open spec fn name_text(self) -> Seq<char> {
        match self {
            Field::TotalStars => "total_stars"@,
            Field::PartialStars => "partial_stars"@,
            Field::Pp => "pp"@,
            Field::MaxPp => "max_pp"@,
            Field::MaxCombo => "max_combo"@,
            Field::Ar => "ar"@,
            Field::Cs => "cs"@,
            Field::Od => "od"@,
            Field::Hp => "hp"@,
            Field::ClockRate => "clock_rate"@,
        }
    }

    /// The name under which the field is returned.
    pub fn name(self) -> (name: &'static str)
        ensures
            name@ == self.name_text(),
    {
        match self {
            Field::TotalStars => "total_stars",
            Field::PartialStars => "partial_stars",
            Field::Pp => "pp",
            Field::MaxPp => "max_pp",
            Field::MaxCombo => "max_combo",
            Field::Ar => "ar",
            Field::Cs => "cs",
            Field::Od => "od",
            Field::Hp => "hp",
            Field::ClockRate => "clock_rate",
        }
    }
}

/// The fields that the attributes add to a result: none where there are no
/// attributes.
pub open spec fn attribute_fields<N>(attributes: Option<Attributes<N>>) -> Seq<(Field, Value<N>)> {
    match attributes {
        Some(a) => seq![
            (Field::Ar, Value::Number(a.ar)),
            (Field::Cs, Value::Number(a.cs)),
            (Field::Od, Value::Number(a.od)),
            (Field::Hp, Value::Number(a.hp)),
            (Field::ClockRate, Value::Number(a.clock_rate)),
        ],
        None => seq![],
    }
}

/// `fields`, followed by the fields that the attributes add.
fn with_attributes<N: Copy>(
    fields: Vec<(Field, Value<N>)>,
    attributes: Option<Attributes<N>>,
) -> (all: Vec<(Field, Value<N>)>)
    ensures
        all@ == fields@ + attribute_fields(attributes),
{
    let mut all = fields;
    match attributes {
        Some(a) => {
            all.push((Field::Ar, Value::Number(a.ar)));
            all.push((Field::Cs, Value::Number(a.cs)));
            all.push((Field::Od, Value::Number(a.od)));
            all.push((Field::Hp, Value::Number(a.hp)));
            all.push((Field::ClockRate, Value::Number(a.clock_rate)));
        },
        None => {},
    }
    all
}

impl<N> StdResults<N> {
    /// Places the model's numbers: the star rating of the whole chart; from the run
    /// of the play as it was its star rating, performance value and longest combo;
    /// from the run of the best play that is thought possible its performance value
    /// and nothing else.
    pub fn assemble(
        total_stars: N,
        achieved: Performance<N>,
        potential: Performance<N>,
        attributes: Option<Attributes<N>>,
    ) -> (results: Self)
        ensures
            results.total_stars == total_stars,
            results.partial_stars == achieved.stars,
            results.pp == achieved.pp,
            results.max_pp == potential.pp,
            results.max_combo == achieved.max_combo,
            results.attributes == attributes,
    {
        StdResults {
            total_stars,
            partial_stars: achieved.stars,
            pp: achieved.pp,
            max_pp: potential.pp,
            max_combo: achieved.max_combo,
            attributes,
        }
    }

    /// The fields of the result, in the order in which they are returned.
    pub open spec fn field_list(self) -> Seq<(Field, Value<N>)> {
        seq![
            (Field::TotalStars, Value::Number(self.total_stars)),
            (Field::PartialStars, Value::Number(self.partial_stars)),
            (Field::Pp, Value::Number(self.pp)),
            (Field::MaxPp, Value::Number(self.max_pp)),
            (Field::MaxCombo, Value::Count(self.max_combo)),
        ] + attribute_fields(self.attributes)
    }

    /// The fields of the result, in the order in which they are returned.
    pub fn fields(&self) -> (fields: Vec<(Field, Value<N>)>) where N: Copy,
        ensures
            fields@ == self.field_list(),
    {
        let mut fields = Vec::new();
        fields.push((Field::TotalStars, Value::Number(self.total_stars)));
        fields.push((Field::PartialStars, Value::Number(self.partial_stars)));
        fields.push((Field::Pp, Value::Number(self.pp)));
        fields.push((Field::MaxPp, Value::Number(self.max_pp)));
        fields.push((Field::MaxCombo, Value::Count(self.max_combo)));
        with_attributes(fields, self.attributes)
    }
}

impl<N> TaikoResults<N> {
    /// Places the model's numbers: the star rating of the whole chart, and from the
    /// run of the play its star rating, performance value and longest combo.
    pub fn assemble(
        total_stars: N,
        play: Performance<N>,
        attributes: Option<Attributes<N>>,
    ) -> (results: Self)
        ensures
            results.total_stars == total_stars,
            results.partial_stars == play.stars,
            results.pp == play.pp,
            results.max_combo == play.max_combo,
            results.attributes == attributes,
    {
        TaikoResults {
            total_stars,
            partial_stars: play.stars,
            pp: play.pp,
            max_combo: play.max_combo,
            attributes,
        }
    }

    /// The fields of the result, in the order in which they are returned.
    pub open spec fn field_list(self) -> Seq<(Field, Value<N>)> {
        seq![
            (Field::TotalStars, Value::Number(self.total_stars)),
            (Field::PartialStars, Value::Number(self.partial_stars)),
            (Field::Pp, Value::Number(self.pp)),
            (Field::MaxCombo, Value::Count(self.max_combo)),
        ] + attribute_fields(self.attributes)
    }

    /// The fields of the result, in the order in which they are returned.
    pub fn fields(&self) -> (fields: Vec<(Field, Value<N>)>) where N: Copy,
        ensures
            fields@ == self.field_list(),
    {
        let mut fields = Vec::new();
        fields.push((Field::TotalStars, Value::Number(self.total_stars)));
        fields.push((Field::PartialStars, Value::Number(self.partial_stars)));
        fields.push((Field::Pp, Value::Number(self.pp)));
        fields.push((Field::MaxCombo, Value::Count(self.max_combo)));
        with_attributes(fields, self.attributes)
    }
}

impl<N> ManiaResults<N> {
    /// Places the model's numbers: the star rating of the whole chart, and from the
    /// run of the play its star rating and performance value.
    pub fn assemble(
        total_stars: N,
        play: ManiaPerformance<N>,
        attributes: Option<Attributes<N>>,
    ) -> (results: Self)
        ensures
            results.total_stars == total_stars,
            results.partial_stars == play.stars,
            results.pp == play.pp,
            results.attributes == attributes,
    {
        ManiaResults { total_stars, partial_stars: play.stars, pp: play.pp, attributes }
    }

    /// The fields of the result, in the order in which they are returned.
    pub open spec fn field_list(self) -> Seq<(Field, Value<N>)> {
        seq![
            (Field::TotalStars, Value::Number(self.total_stars)),
            (Field::PartialStars, Value::Number(self.partial_stars)),
            (Field::Pp, Value::Number(self.pp)),
        ] + attribute_fields(self.attributes)
    }

    /// The fields of the result, in the order in which they are returned.
    pub fn fields(&self) -> (fields: Vec<(Field, Value<N>)>) where N: Copy,
        ensures
            fields@ == self.field_list(),
    {
        let mut fields = Vec::new();
        fields.push((Field::TotalStars, Value::Number(self.total_stars)));
        fields.push((Field::PartialStars, Value::Number(self.partial_stars)));
        fields.push((Field::Pp, Value::Number(self.pp)));
        with_attributes(fields, self.attributes)
    }
}

impl<N> CatchResults<N> {
    /// Places the model's numbers: the star rating of the whole chart, and from the
    /// run of the play its star rating, performance value and longest combo.
    pub fn assemble(
        total_stars: N,
        play: Performance<N>,
        attributes: Option<Attributes<N>>,
    ) -> (results: Self)
        ensures
            results.total_stars == total_stars,
            results.partial_stars == play.stars,
            results.pp == play.pp,
            results.max_combo == play.max_combo,
            results.attributes == attributes,
    {
        CatchResults {
            total_stars,
            partial_stars: play.stars,
            pp: play.pp,
            max_combo: play.max_combo,
            attributes,
        }
    }

    /// The fields of the result, in the order in which they are returned.
    pub open spec fn field_list(self) -> Seq<(Field, Value<N>)> {
        seq![
            (Field::TotalStars, Value::Number(self.total_stars)),
            (Field::PartialStars, Value::Number(self.partial_stars)),
            (Field::Pp, Value::Number(self.pp)),
            (Field::MaxCombo, Value::Count(self.max_combo)),
        ] + attribute_fields(self.attributes)
    }

    /// The fields of the result, in the order in which they are returned.
    pub fn fields(&self) -> (fields: Vec<(Field, Value<N>)>) where N: Copy,
        ensures
            fields@ == self.field_list(),
    {
        let mut fields = Vec::new();
        fields.push((Field::TotalStars, Value::Number(self.total_stars)));
        fields.push((Field::PartialStars, Value::Number(self.partial_stars)));
        fields.push((Field::Pp, Value::Number(self.pp)));
        fields.push((Field::MaxCombo, Value::Count(self.max_combo)));
        with_attributes(fields, self.attributes)
    }
}

} // verus!
