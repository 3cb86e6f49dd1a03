use vstd::prelude::*;
use vstd::string::StringExecFns;

use crate::element::{into_owned_all, owned_all, views, Element, ElementView};
use crate::error::Error;
use crate::unit::{lemma_decimal_text_is_inert, Decibels, Decimal, DecimalView, SpeedFormatter, TimeDesignation};
use crate::util;
use crate::xml::{EscapedDisplay, WriterView, XmlWriter};
use crate::{Outcome, Serialize, SerializeOptions};

verus! {

broadcast use vstd::string::group_string_axioms;

/// The pitch of a passage, by name or as a change in semitones or hertz.
#[derive(Debug, PartialEq)]
pub enum ProsodyPitch {
    Lower,
    Low,
    Medium,
    Default,
    High,
    Higher,
    Semitone(Decimal),
    Hz(Decimal),
}

/// The mathematical content of a [`ProsodyPitch`].
pub enum ProsodyPitchView {
    Lower,
    Low,
    Medium,
    Default,
    High,
    Higher,
    Semitone(DecimalView),
    Hz(DecimalView),
}

impl ProsodyPitchView {
    /// The pitch as the value of an attribute: its name, or the signed
    /// number and its unit.
    pub open spec fn text(self) -> Seq<char> {
        match self {
            ProsodyPitchView::Lower => "x-low"@,
            ProsodyPitchView::Low => "low"@,
            ProsodyPitchView::Medium => "medium"@,
            ProsodyPitchView::Default => "default"@,
            ProsodyPitchView::High => "high"@,
            ProsodyPitchView::Higher => "x-high"@,
            ProsodyPitchView::Semitone(value) => value.signed_text() + seq!['s', 't'],
            ProsodyPitchView::Hz(value) => value.signed_text() + seq!['H', 'z'],
        }
    }
}

impl ProsodyPitch {
    pub open spec fn view(&self) -> ProsodyPitchView {
        match self {
            ProsodyPitch::Lower => ProsodyPitchView::Lower,
            ProsodyPitch::Low => ProsodyPitchView::Low,
            ProsodyPitch::Medium => ProsodyPitchView::Medium,
            ProsodyPitch::Default => ProsodyPitchView::Default,
            ProsodyPitch::High => ProsodyPitchView::High,
            ProsodyPitch::Higher => ProsodyPitchView::Higher,
            ProsodyPitch::Semitone(value) => ProsodyPitchView::Semitone(value@),
            ProsodyPitch::Hz(value) => ProsodyPitchView::Hz(value@),
        }
    }

    /// A change of pitch in semitones.
    pub fn st(value: Decimal) -> (r: Self)
        ensures
            r@ == ProsodyPitchView::Semitone(value@),
    {
        ProsodyPitch::Semitone(value)
    }

    /// A change of pitch in hertz.
    pub fn hz(value: Decimal) -> (r: Self)
        ensures
            r@ == ProsodyPitchView::Hz(value@),
    {
        ProsodyPitch::Hz(value)
    }
}

impl Clone for ProsodyPitch {
    fn clone(&self) -> (r: Self)
        ensures
            r@ == self@,
    {
        match self {
            ProsodyPitch::Lower => ProsodyPitch::Lower,
            ProsodyPitch::Low => ProsodyPitch::Low,
            ProsodyPitch::Medium => ProsodyPitch::Medium,
            ProsodyPitch::Default => ProsodyPitch::Default,
            ProsodyPitch::High => ProsodyPitch::High,
            ProsodyPitch::Higher => ProsodyPitch::Higher,
            ProsodyPitch::Semitone(value) => ProsodyPitch::Semitone(value.clone()),
            ProsodyPitch::Hz(value) => ProsodyPitch::Hz(value.clone()),
        }
    }
}

impl Default for ProsodyPitch {
    fn default() -> (r: Self)
        ensures
            r@ == ProsodyPitchView::Default,
    {
        ProsodyPitch::Default
    }
}

impl EscapedDisplay for &ProsodyPitch {
    open spec fn escaped_text(&self) -> Seq<char> {
        self@.text()
    }

    fn escaped_fmt(&self, w: &mut String) {
        proof {
            reveal_strlit("x-low");
            reveal_strlit("low");
            reveal_strlit("medium");
            reveal_strlit("default");
            reveal_strlit("high");
            reveal_strlit("x-high");
        }
        match self {
            ProsodyPitch::Lower => w.append("x-low"),
            ProsodyPitch::Low => w.append("low"),
            ProsodyPitch::Medium => w.append("medium"),
            ProsodyPitch::Default => w.append("default"),
            ProsodyPitch::High => w.append("high"),
            ProsodyPitch::Higher => w.append("x-high"),
            ProsodyPitch::Semitone(value) => {
                value.assert_well_formed();
                proof {
                    lemma_decimal_text_is_inert(value@);
                }
                value.write_signed(w);
                w.push('s');
                w.push('t');
                assert(w@ =~= old(w)@ + self@.text());
            },
            ProsodyPitch::Hz(value) => {
                value.assert_well_formed();
                proof {
                    lemma_decimal_text_is_inert(value@);
                }
                value.write_signed(w);
                w.push('H');
                w.push('z');
                assert(w@ =~= old(w)@ + self@.text());
            },
        }
    }
}

/// The speed of a passage, by name or as a ratio of the normal speed.
#[derive(Debug, PartialEq)]
pub enum ProsodyRate {
    Slower,
    Slow,
    Medium,
    Default,
    Fast,
    Faster,
    Rate(Decimal),
}

/// The mathematical content of a [`ProsodyRate`].
pub enum ProsodyRateView {
    Slower,
    Slow,
    Medium,
    Default,
    Fast,
    Faster,
    Rate(DecimalView),
}

impl ProsodyRateView {
    /// The rate as the value of an attribute: its name, or the ratio as a
    /// percentage, a negative ratio counting as zero.
    pub open spec fn text(self) -> Seq<char> {
        match self {
            ProsodyRateView::Slower => "x-slow"@,
            ProsodyRateView::Slow => "slow"@,
            ProsodyRateView::Medium => "medium"@,
            ProsodyRateView::Default => "default"@,
            ProsodyRateView::Fast => "fast"@,
            ProsodyRateView::Faster => "x-fast"@,
            ProsodyRateView::Rate(ratio) => SpeedFormatter::text_of(ratio.or_zero()),
        }
    }
}

impl ProsodyRate {
    pub open spec fn view(&self) -> ProsodyRateView {
        match self {
            ProsodyRate::Slower => ProsodyRateView::Slower,
            ProsodyRate::Slow => ProsodyRateView::Slow,
            ProsodyRate::Medium => ProsodyRateView::Medium,
            ProsodyRate::Default => ProsodyRateView::Default,
            ProsodyRate::Fast => ProsodyRateView::Fast,
            ProsodyRate::Faster => ProsodyRateView::Faster,
            ProsodyRate::Rate(ratio) => ProsodyRateView::Rate(ratio@),
        }
    }

    /// A rate that is the given ratio of the normal speed; a negative ratio
    /// counts as zero.
    pub fn new(rate: Decimal) -> (r: Self)
        ensures
            r@ == ProsodyRateView::Rate(rate@.or_zero()),
    {
        ProsodyRate::Rate(rate.or_zero())
    }
}

impl Clone for ProsodyRate {
    fn clone(&self) -> (r: Self)
        ensures
            r@ == self@,
    {
        match self {
            ProsodyRate::Slower => ProsodyRate::Slower,
            ProsodyRate::Slow => ProsodyRate::Slow,
            ProsodyRate::Medium => ProsodyRate::Medium,
            ProsodyRate::Default => ProsodyRate::Default,
            ProsodyRate::Fast => ProsodyRate::Fast,
            ProsodyRate::Faster => ProsodyRate::Faster,
            ProsodyRate::Rate(ratio) => ProsodyRate::Rate(ratio.clone()),
        }
    }
}

impl Default for ProsodyRate {
    fn default() -> (r: Self)
        ensures
            r@ == ProsodyRateView::Default,
    {
        ProsodyRate::Default
    }
}

impl EscapedDisplay for &ProsodyRate {
    open spec fn escaped_text(&self) -> Seq<char> {
        self@.text()
    }

    fn escaped_fmt(&self, w: &mut String) {
        proof {
            reveal_strlit("x-slow");
            reveal_strlit("slow");
            reveal_strlit("medium");
            reveal_strlit("default");
            reveal_strlit("fast");
            reveal_strlit("x-fast");
        }
        match self {
            ProsodyRate::Slower => w.append("x-slow"),
            ProsodyRate::Slow => w.append("slow"),
            ProsodyRate::Medium => w.append("medium"),
            ProsodyRate::Default => w.append("default"),
            ProsodyRate::Fast => w.append("fast"),
            ProsodyRate::Faster => w.append("x-fast"),
            ProsodyRate::Rate(ratio) => {
                let ratio = ratio.or_zero();
                SpeedFormatter(&ratio).escaped_fmt(w);
            },
        }
    }
}

/// The volume of a passage, by name or as a change in decibels.
#[derive(Debug, PartialEq)]
pub enum ProsodyVolume {
    Silent,
    Softer,
    Soft,
    Medium,
    Default,
    Loud,
    Louder,
    Db(Decibels),
}

/// The mathematical content of a [`ProsodyVolume`].
pub enum ProsodyVolumeView {
    Silent,
    Softer,
    Soft,
    Medium,
    Default,
    Loud,
    Louder,
    Db(DecimalView),
}

impl ProsodyVolumeView {
    /// The volume as the value of an attribute: its name, or the change in
    /// decibels.
    pub open spec fn text(self) -> Seq<char> {
        match self {
            ProsodyVolumeView::Silent => "silent"@,
            ProsodyVolumeView::Softer => "x-soft"@,
            ProsodyVolumeView::Soft => "soft"@,
            ProsodyVolumeView::Medium => "medium"@,
            ProsodyVolumeView::Default => "default"@,
            ProsodyVolumeView::Loud => "loud"@,
            ProsodyVolumeView::Louder => "x-loud"@,
            ProsodyVolumeView::Db(value) => Decibels::text_of(value),
        }
    }
}

impl ProsodyVolume {
    pub open spec fn view(&self) -> ProsodyVolumeView {
        match self {
            ProsodyVolume::Silent => ProsodyVolumeView::Silent,
            ProsodyVolume::Softer => ProsodyVolumeView::Softer,
            ProsodyVolume::Soft => ProsodyVolumeView::Soft,
            ProsodyVolume::Medium => ProsodyVolumeView::Medium,
            ProsodyVolume::Default => ProsodyVolumeView::Default,
            ProsodyVolume::Loud => ProsodyVolumeView::Loud,
            ProsodyVolume::Louder => ProsodyVolumeView::Louder,
            ProsodyVolume::Db(value) => ProsodyVolumeView::Db(value@),
        }
    }

    /// A change of volume in decibels.
    pub fn db(db: Decibels) -> (r: Self)
        ensures
            r@ == ProsodyVolumeView::Db(db@),
    {
        ProsodyVolume::Db(db)
    }
}

impl Clone for ProsodyVolume {
    fn clone(&self) -> (r: Self)
        ensures
            r@ == self@,
    {
        match self {
            ProsodyVolume::Silent => ProsodyVolume::Silent,
            ProsodyVolume::Softer => ProsodyVolume::Softer,
            ProsodyVolume::Soft => ProsodyVolume::Soft,
            ProsodyVolume::Medium => ProsodyVolume::Medium,
            ProsodyVolume::Default => ProsodyVolume::Default,
            ProsodyVolume::Loud => ProsodyVolume::Loud,
            ProsodyVolume::Louder => ProsodyVolume::Louder,
            ProsodyVolume::Db(value) => ProsodyVolume::Db(value.clone()),
        }
    }
}

impl Default for ProsodyVolume {
    fn default() -> (r: Self)
        ensures
            r@ == ProsodyVolumeView::Default,
    {
        ProsodyVolume::Default
    }
}

impl EscapedDisplay for &ProsodyVolume {
    open spec fn escaped_text(&self) -> Seq<char> {
        self@.text()
    }

    fn escaped_fmt(&self, w: &mut String) {
        proof {
            reveal_strlit("silent");
            reveal_strlit("x-soft");
            reveal_strlit("soft");
            reveal_strlit("medium");
            reveal_strlit("default");
            reveal_strlit("loud");
            reveal_strlit("x-loud");
        }
        match self {
            ProsodyVolume::Silent => w.append("silent"),
            ProsodyVolume::Softer => w.append("x-soft"),
            ProsodyVolume::Soft => w.append("soft"),
            ProsodyVolume::Medium => w.append("medium"),
            ProsodyVolume::Default => w.append("default"),
            ProsodyVolume::Loud => w.append("loud"),
            ProsodyVolume::Louder => w.append("x-loud"),
            ProsodyVolume::Db(value) => value.escaped_fmt(w),
        }
    }
}

/// The course of the pitch over a passage: pitches at positions, each
/// position a ratio of the length of the passage.
#[derive(Debug)]
pub struct ProsodyContour {
    points: Vec<(Decimal, ProsodyPitch)>,
}

/// The positions and pitches of a list of points.
pub open spec fn point_views(points: Seq<(Decimal, ProsodyPitch)>) -> Seq<(DecimalView, ProsodyPitchView)> {
    Seq::new(points.len(), |i: int| (points[i].0@, points[i].1@))
}

/// The text of one point of a contour: `(position%,pitch)`.
pub open spec fn point_text(point: (DecimalView, ProsodyPitchView)) -> Seq<char> {
    seq!['('] + SpeedFormatter::text_of(point.0) + seq![','] + point.1.text() + seq![')']
}

/// The text of the points of a contour from index `from` on, each but the
/// first of the whole contour preceded by a space.
pub open spec fn contour_text(points: Seq<(DecimalView, ProsodyPitchView)>, from: int) -> Seq<char>
    decreases points.len() - from,
{
    if from < 0 || from >= points.len() {
        Seq::empty()
    } else if from == 0 {
        point_text(points[from]) + contour_text(points, from + 1)
    } else {
        seq![' '] + point_text(points[from]) + contour_text(points, from + 1)
    }
}

impl ProsodyContour {
    /// The points of the contour.
    pub closed spec fn view(&self) -> Seq<(DecimalView, ProsodyPitchView)> {
        point_views(self.points@)
    }

    /// A contour without points.
    pub fn new() -> (r: Self)
        ensures
            r@ == Seq::<(DecimalView, ProsodyPitchView)>::empty(),
    {
        let r = ProsodyContour { points: Vec::new() };
        assert(point_views(r.points@) =~= Seq::empty());
        r
    }

    /// The same contour with one more point.
    pub fn and(self, time: Decimal, pitch: ProsodyPitch) -> (r: Self)
        ensures
            r@ == self@.push((time@, pitch@)),
    {
        let mut points = self.points;
        points.push((time, pitch));
        assert(point_views(points@) =~= point_views(self.points@).push((time@, pitch@)));
        ProsodyContour { points }
    }

    /// The points of the contour.
    pub fn points(&self) -> (r: &Vec<(Decimal, ProsodyPitch)>)
        ensures
            point_views(r@) == self@,
    {
        &self.points
    }

    /// The points of the contour, to be changed in place.
    pub fn points_mut(&mut self) -> (r: &mut Vec<(Decimal, ProsodyPitch)>)
        ensures
            point_views(r@) == old(self)@,
            final(self)@ == point_views(final(r)@),
    {
        &mut self.points
    }

    /// Adds a point at the end of the contour.
    pub fn push(&mut self, time: Decimal, pitch: ProsodyPitch)
        ensures
            final(self)@ == old(self)@.push((time@, pitch@)),
    {
        self.points.push((time, pitch));
        assert(point_views(self.points@) =~= point_views(old(self).points@).push((time@, pitch@)));
    }

    /// The contour as text: its points, separated by spaces.
    pub fn to_string(&self) -> (r: String)
        ensures
            r@ == contour_text(self@, 0),
    {
        let ghost points = point_views(self.points@);
        let mut out = String::new();
        let mut i: usize = 0;
        assert(out@ + contour_text(points, 0) =~= contour_text(points, 0));
        while i < self.points.len()
            invariant
                i <= self.points.len(),
                points == point_views(self.points@),
                out@ + contour_text(points, i as int) == contour_text(points, 0),
            decreases self.points.len() - i,
        {
            let ghost before = out@;
            if i > 0 {
                out.push(' ');
            }
            out.push('(');
            SpeedFormatter(&self.points[i].0).escaped_fmt(&mut out);
            out.push(',');
            (&self.points[i].1).escaped_fmt(&mut out);
            out.push(')');
            assert(points[i as int] == (self.points[i as int].0@, self.points[i as int].1@));
            assert(out@ + contour_text(points, i + 1) =~= before + contour_text(points, i as int));
            i += 1;
        }
        assert(out@ + contour_text(points, i as int) =~= out@);
        out
    }
}

impl Clone for ProsodyContour {
    fn clone(&self) -> (r: Self)
        ensures
            r@ == self@,
    {
        let mut points: Vec<(Decimal, ProsodyPitch)> = Vec::new();
        let mut i: usize = 0;
        while i < self.points.len()
            invariant
                i <= self.points.len(),
                points.len() == i,
                forall|j: int|
                    0 <= j < i ==> points[j].0@ == self.points[j].0@ && points[j].1@ == self.points[j].1@,
            decreases self.points.len() - i,
        {
            points.push((self.points[i].0.clone(), self.points[i].1.clone()));
            i += 1;
        }
        assert(point_views(points@) =~= point_views(self.points@));
        ProsodyContour { points }
    }
}

impl Default for ProsodyContour {
    fn default() -> (r: Self)
        ensures
            r@ == Seq::<(DecimalView, ProsodyPitchView)>::empty(),
    {
        ProsodyContour::new()
    }
}

/// How a passage is spoken: each setting that is made changes the voice.
#[derive(Debug)]
pub struct ProsodyControl {
    pub pitch: Option<ProsodyPitch>,
    pub contour: Option<ProsodyContour>,
    pub range: Option<ProsodyPitch>,
    pub rate: Option<ProsodyRate>,
    pub duration: Option<TimeDesignation>,
    pub volume: Option<ProsodyVolume>,
}

/// The mathematical content of a [`ProsodyControl`].
pub struct ProsodyControlView {
    pub pitch: Option<ProsodyPitchView>,
    pub contour: Option<Seq<(DecimalView, ProsodyPitchView)>>,
    pub range: Option<ProsodyPitchView>,
    pub rate: Option<ProsodyRateView>,
    /// The duration in milliseconds.
    pub duration: Option<DecimalView>,
    pub volume: Option<ProsodyVolumeView>,
}

/// The content of a pitch that may be absent.
pub open spec fn pitch_view(pitch: Option<ProsodyPitch>) -> Option<ProsodyPitchView> {
    match pitch {
        Some(pitch) => Some(pitch@),
        None => None,
    }
}

/// The text of a pitch that may be absent.
pub open spec fn pitch_text(pitch: Option<ProsodyPitchView>) -> Option<Seq<char>> {
    match pitch {
        Some(pitch) => Some(pitch.text()),
        None => None,
    }
}

impl ProsodyControlView {
    /// A control that changes nothing.
    pub open spec fn empty() -> ProsodyControlView {
        ProsodyControlView { pitch: None, contour: None, range: None, rate: None, duration: None, volume: None }
    }

    /// The attributes of the control: each setting that is made, in the order
    /// pitch, range, rate, duration, volume. The contour is not written.
    #[verifier::opaque]
    pub open spec fn render(self, so_far: Outcome) -> Outcome {
        so_far.attr_opt("pitch"@, pitch_text(self.pitch)).attr_opt("range"@, pitch_text(self.range)).attr_opt(
            "rate"@,
            match self.rate {
                Some(rate) => Some(rate.text()),
                None => None,
            },
        ).attr_opt(
            "duration"@,
            match self.duration {
                Some(millis) => Some(TimeDesignation::text_of(millis)),
                None => None,
            },
        ).attr_opt(
            "volume"@,
            match self.volume {
                Some(volume) => Some(volume.text()),
                None => None,
            },
        )
    }
}

impl ProsodyControl {
    pub open spec fn view(&self) -> ProsodyControlView {
        ProsodyControlView {
            pitch: pitch_view(self.pitch),
            contour: match self.contour {
                Some(contour) => Some(contour@),
                None => None,
            },
            range: pitch_view(self.range),
            rate: match self.rate {
                Some(rate) => Some(rate@),
                None => None,
            },
            duration: match self.duration {
                Some(duration) => Some(duration@),
                None => None,
            },
            volume: match self.volume {
                Some(volume) => Some(volume@),
                None => None,
            },
        }
    }

    /// The same control with the given pitch.
    pub fn with_pitch(self, pitch: ProsodyPitch) -> (r: Self)
        ensures
            r@ == (ProsodyControlView { pitch: Some(pitch@), ..self@ }),
    {
        ProsodyControl { pitch: Some(pitch), ..self }
    }

    /// The same control with the given contour.
    pub fn with_contour(self, contour: ProsodyContour) -> (r: Self)
        ensures
            r@ == (ProsodyControlView { contour: Some(contour@), ..self@ }),
    {
        ProsodyControl { contour: Some(contour), ..self }
    }

    /// The same control with the given range of pitch.
    pub fn with_range(self, pitch: ProsodyPitch) -> (r: Self)
        ensures
            r@ == (ProsodyControlView { range: Some(pitch@), ..self@ }),
    {
        ProsodyControl { range: Some(pitch), ..self }
    }

    /// The same control with the given rate.
    pub fn with_rate(self, rate: ProsodyRate) -> (r: Self)
        ensures
            r@ == (ProsodyControlView { rate: Some(rate@), ..self@ }),
    {
        ProsodyControl { rate: Some(rate), ..self }
    }

    /// The same control with the given duration.
    pub fn with_duration(self, duration: TimeDesignation) -> (r: Self)
        ensures
            r@ == (ProsodyControlView { duration: Some(duration@), ..self@ }),
    {
        ProsodyControl { duration: Some(duration), ..self }
    }

    /// The same control with the given volume.
    pub fn with_volume(self, volume: ProsodyVolume) -> (r: Self)
        ensures
            r@ == (ProsodyControlView { volume: Some(volume@), ..self@ }),
    {
        ProsodyControl { volume: Some(volume), ..self }
    }
}

impl Clone for ProsodyControl {
    fn clone(&self) -> (r: Self)
        ensures
            r@ == self@,
    {
        ProsodyControl {
            pitch: match &self.pitch {
                Some(pitch) => Some(pitch.clone()),
                None => None,
            },
            contour: match &self.contour {
                Some(contour) => Some(contour.clone()),
                None => None,
            },
            range: match &self.range {
                Some(range) => Some(range.clone()),
                None => None,
            },
            rate: match &self.rate {
                Some(rate) => Some(rate.clone()),
                None => None,
            },
            duration: match &self.duration {
                Some(duration) => Some(duration.clone()),
                None => None,
            },
            volume: match &self.volume {
                Some(volume) => Some(volume.clone()),
                None => None,
            },
        }
    }
}

impl Default for ProsodyControl {
    fn default() -> (r: Self)
        ensures
            r@ == ProsodyControlView::empty(),
    {
        ProsodyControl { pitch: None, contour: None, range: None, rate: None, duration: None, volume: None }
    }
}

impl From<ProsodyPitch> for ProsodyControl {
    fn from(value: ProsodyPitch) -> (r: ProsodyControl) {
        ProsodyControl {
            pitch: Some(value),
            contour: None,
            range: None,
            rate: None,
            duration: None,
            volume: None,
        }
    }
}

impl vstd::std_specs::convert::FromSpecImpl<ProsodyPitch> for ProsodyControl {
    open spec fn obeys_from_spec() -> bool {
        true
    }

    open spec fn from_spec(value: ProsodyPitch) -> ProsodyControl {
        ProsodyControl {
            pitch: Some(value),
            contour: None,
            range: None,
            rate: None,
            duration: None,
            volume: None,
        }
    }
}

impl From<ProsodyContour> for ProsodyControl {
    fn from(value: ProsodyContour) -> (r: ProsodyControl) {
        ProsodyControl {
            pitch: None,
            contour: Some(value),
            range: None,
            rate: None,
            duration: None,
            volume: None,
        }
    }
}

impl vstd::std_specs::convert::FromSpecImpl<ProsodyContour> for ProsodyControl {
    open spec fn obeys_from_spec() -> bool {
        true
    }

    open spec fn from_spec(value: ProsodyContour) -> ProsodyControl {
        ProsodyControl {
            pitch: None,
            contour: Some(value),
            range: None,
            rate: None,
            duration: None,
            volume: None,
        }
    }
}

impl From<ProsodyRate> for ProsodyControl {
    fn from(value: ProsodyRate) -> (r: ProsodyControl) {
        ProsodyControl {
            pitch: None,
            contour: None,
            range: None,
            rate: Some(value),
            duration: None,
            volume: None,
        }
    }
}

impl vstd::std_specs::convert::FromSpecImpl<ProsodyRate> for ProsodyControl {
    open spec fn obeys_from_spec() -> bool {
        true
    }

    open spec fn from_spec(value: ProsodyRate) -> ProsodyControl {
        ProsodyControl {
            pitch: None,
            contour: None,
            range: None,
            rate: Some(value),
            duration: None,
            volume: None,
        }
    }
}

impl From<TimeDesignation> for ProsodyControl {
    fn from(value: TimeDesignation) -> (r: ProsodyControl) {
        ProsodyControl {
            pitch: None,
            contour: None,
            range: None,
            rate: None,
            duration: Some(value),
            volume: None,
        }
    }
}

impl vstd::std_specs::convert::FromSpecImpl<TimeDesignation> for ProsodyControl {
    open spec fn obeys_from_spec() -> bool {
        true
    }

    open spec fn from_spec(value: TimeDesignation) -> ProsodyControl {
        ProsodyControl {
            pitch: None,
            contour: None,
            range: None,
            rate: None,
            duration: Some(value),
            volume: None,
        }
    }
}

impl From<ProsodyVolume> for ProsodyControl {
    fn from(value: ProsodyVolume) -> (r: ProsodyControl) {
        ProsodyControl {
            pitch: None,
            contour: None,
            range: None,
            rate: None,
            duration: None,
            volume: Some(value),
        }
    }
}

impl vstd::std_specs::convert::FromSpecImpl<ProsodyVolume> for ProsodyControl {
    open spec fn obeys_from_spec() -> bool {
        true
    }

    open spec fn from_spec(value: ProsodyVolume) -> ProsodyControl {
        ProsodyControl {
            pitch: None,
            contour: None,
            range: None,
            rate: None,
            duration: None,
            volume: Some(value),
        }
    }
}

/// A passage that is spoken with another pitch, rate or volume.
#[derive(Debug)]
pub struct Prosody<'s> {
    control: ProsodyControl,
    children: Vec<Element<'s>>,
}

/// The mathematical content of a [`Prosody`].
pub struct ProsodyView {
    pub control: ProsodyControlView,
    pub children: Seq<ElementView>,
}

impl ProsodyView {
    /// What is written inside the element: the attributes of the control,
    /// then the children.
    pub open spec fn render_body(self, writer: WriterView, options: SerializeOptions) -> Outcome
        decreases self, 0nat,
    {
        util::render_all(self.children, 0, self.control.render(Outcome::of(writer)), options, true)
    }

    /// A `prosody` element around the children.
    #[verifier::opaque]
    pub open spec fn render(self, writer: WriterView, options: SerializeOptions) -> Outcome
        decreases self, 1nat,
    {
        self.render_body(writer.opened("prosody"@), options).close("prosody"@, writer.indent)
    }
}

impl<'s> Prosody<'s> {
    pub closed spec fn view(&self) -> ProsodyView
        decreases self,
    {
        ProsodyView { control: self.control@, children: views(self.children@) }
    }

    /// A passage of the given elements, spoken as the control says.
    pub fn new(control: ProsodyControl, elements: Vec<Element<'s>>) -> (r: Self)
        ensures
            r@ == (ProsodyView { control: control@, children: views(elements@) }),
    {
        Prosody { control, children: elements }
    }

    /// The same passage with the given pitch.
    pub fn with_pitch(self, pitch: ProsodyPitch) -> (r: Self)
        ensures
            r@ == (ProsodyView {
                control: ProsodyControlView { pitch: Some(pitch@), ..self@.control },
                ..self@
            }),
    {
        Prosody { control: self.control.with_pitch(pitch), children: self.children }
    }

    /// The same passage with the given contour.
    pub fn with_contour(self, contour: ProsodyContour) -> (r: Self)
        ensures
            r@ == (ProsodyView {
                control: ProsodyControlView { contour: Some(contour@), ..self@.control },
                ..self@
            }),
    {
        Prosody { control: self.control.with_contour(contour), children: self.children }
    }

    /// The same passage with the given range of pitch.
    pub fn with_range(self, pitch: ProsodyPitch) -> (r: Self)
        ensures
            r@ == (ProsodyView {
                control: ProsodyControlView { range: Some(pitch@), ..self@.control },
                ..self@
            }),
    {
        Prosody { control: self.control.with_range(pitch), children: self.children }
    }

    /// The same passage with the given rate.
    pub fn with_rate(self, rate: ProsodyRate) -> (r: Self)
        ensures
            r@ == (ProsodyView {
                control: ProsodyControlView { rate: Some(rate@), ..self@.control },
                ..self@
            }),
    {
        Prosody { control: self.control.with_rate(rate), children: self.children }
    }

    /// The same passage with the given duration.
    pub fn with_duration(self, duration: TimeDesignation) -> (r: Self)
        ensures
            r@ == (ProsodyView {
                control: ProsodyControlView { duration: Some(duration@), ..self@.control },
                ..self@
            }),
    {
        Prosody { control: self.control.with_duration(duration), children: self.children }
    }

    /// The same passage with the given volume.
    pub fn with_volume(self, volume: ProsodyVolume) -> (r: Self)
        ensures
            r@ == (ProsodyView {
                control: ProsodyControlView { volume: Some(volume@), ..self@.control },
                ..self@
            }),
    {
        Prosody { control: self.control.with_volume(volume), children: self.children }
    }

    /// How the passage is spoken.
    pub fn control(&self) -> (r: &ProsodyControl)
        ensures
            r@ == self@.control,
    {
        &self.control
    }

    /// How the passage is spoken, to be changed in place.
    pub fn control_mut(&mut self) -> (r: &mut ProsodyControl)
        ensures
            r@ == old(self)@.control,
            final(self)@ == (ProsodyView { control: final(r)@, ..old(self)@ }),
    {
        &mut self.control
    }

    /// Changes how the passage is spoken.
    pub fn set_control(&mut self, control: ProsodyControl)
        ensures
            final(self)@ == (ProsodyView { control: control@, ..old(self)@ }),
    {
        self.control = control;
    }

    /// The elements of the passage.
    pub fn children(&self) -> (r: &Vec<Element<'s>>)
        ensures
            views(r@) == self@.children,
    {
        &self.children
    }

    /// The elements of the passage, to be changed in place.
    pub fn children_mut(&mut self) -> (r: &mut Vec<Element<'s>>)
        ensures
            views(r@) == old(self)@.children,
            final(self)@ == (ProsodyView { children: views(final(r)@), ..old(self)@ }),
    {
        &mut self.children
    }

    /// Adds an element at the end of the passage.
    pub fn push(&mut self, element: Element<'s>)
        ensures
            final(self)@ == (ProsodyView { children: old(self)@.children.push(element@), ..old(self)@ }),
    {
        self.children.push(element);
        assert(views(self.children@) =~= views(old(self).children@).push(element@));
    }

    /// Adds elements at the end of the passage.
    pub fn extend(&mut self, elements: Vec<Element<'s>>)
        ensures
            final(self)@ == (ProsodyView { children: old(self)@.children + views(elements@), ..old(self)@ }),
    {
        let mut tail = elements;
        self.children.append(&mut tail);
        assert(views(self.children@) =~= views(old(self).children@) + views(elements@));
    }

    /// A copy that borrows nothing.
    pub fn to_owned(&self) -> (r: Prosody<'static>)
        ensures
            r@ == self@,
        decreases self,
    {
        Prosody { control: self.control.clone(), children: owned_all(&self.children) }
    }

    /// The same passage, borrowing nothing.
    pub fn into_owned(self) -> (r: Prosody<'static>)
        ensures
            r@ == self@,
        decreases self,
    {
        Prosody { control: self.control, children: into_owned_all(self.children) }
    }
}

impl<'s> Clone for Prosody<'s> {
    fn clone(&self) -> (r: Self)
        ensures
            r@ == self@,
    {
        self.to_owned()
    }
}

impl<'s> Serialize for Prosody<'s> {
    open spec fn rendered(&self, writer: WriterView, options: SerializeOptions) -> Outcome {
        self@.render(writer, options)
    }

    fn serialize_xml(&self, writer: &mut XmlWriter, options: &SerializeOptions) -> (r: Result<(), Error>)
        decreases self,
    {
        assert(self.rendered(writer@, *options) == self@.render(writer@, *options));
        reveal(ProsodyView::render);
        let body = |writer: &mut XmlWriter| -> (r: Result<(), Error>)
            ensures
                self@.render_body(old(writer)@, *options).describes(final(writer)@, r),
            {
                reveal(ProsodyControlView::render);
                writer.attr_opt("pitch", self.control.pitch.as_ref())?;
                writer.attr_opt("range", self.control.range.as_ref())?;
                writer.attr_opt("rate", self.control.rate.as_ref())?;
                writer.attr_opt("duration", self.control.duration.as_ref())?;
                writer.attr_opt("volume", self.control.volume.as_ref())?;
                util::serialize_elements(writer, &self.children, options)
            };
        writer.element("prosody", body)
    }
}

impl<'s> core::ops::Add<Element<'s>> for Prosody<'s> {
    type Output = Prosody<'s>;

    /// The passage with one more element at its end.
    fn add(self, rhs: Element<'s>) -> (r: Prosody<'s>)
        ensures
            r@ == (ProsodyView { children: self@.children.push(rhs@), ..self@ }),
    {
        let mut sum = self;
        sum.push(rhs);
        sum
    }
}

impl<'s> core::ops::AddAssign<Element<'s>> for Prosody<'s> {
    /// Adds an element at the end of the passage.
    fn add_assign(&mut self, rhs: Element<'s>)
        ensures
            final(self)@ == (ProsodyView { children: old(self)@.children.push(rhs@), ..old(self)@ }),
    {
        self.push(rhs);
    }
}

impl<'s> vstd::std_specs::ops::AddSpecImpl<Element<'s>> for Prosody<'s> {
    open spec fn obeys_add_spec() -> bool {
        false
    }

    open spec fn add_req(self, rhs: Element<'s>) -> bool {
        true
    }

    open spec fn add_spec(self, rhs: Element<'s>) -> Prosody<'s> {
        arbitrary()
    }
}

/// Creates a [`Prosody`] around the given elements.
pub fn prosody<'s>(control: ProsodyControl, elements: Vec<Element<'s>>) -> (r: Prosody<'s>)
    ensures
        r@ == (ProsodyView { control: control@, children: views(elements@) }),
{
    Prosody::new(control, elements)
}

} // verus!
