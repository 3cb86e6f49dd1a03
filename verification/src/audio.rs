use std::borrow::Cow;
use vstd::prelude::*;

use crate::element::{into_owned_all, owned_all, views, Element, ElementView};
use crate::error::{Error, Failure};
use crate::unit::{Decibels, Decimal, DecimalView, SpeedFormatter, TimeDesignation};
use crate::util;
use crate::xml::{WriterView, XmlState, XmlWriter};
use crate::{Flavor, Outcome, Serialize, SerializeOptions};

verus! {

/// Specify repeating an [`Audio`] element's playback for a certain number of
/// times, or for a determined duration.
#[derive(Debug, PartialEq)]
pub enum AudioRepeat {
    /// Repeat the audio a certain number of times. A fractional value is
    /// allowed and describes a portion of the rendered media.
    ///
    /// The value **cannot** be negative: with the compatibility checks on, a
    /// negative value fails serialization.
    Times(Decimal),
    /// Repeat the audio for a certain duration.
    Duration(TimeDesignation),
}

/// The mathematical content of an [`AudioRepeat`].
pub enum AudioRepeatView {
    Times(DecimalView),
    /// The duration in milliseconds.
    Duration(DecimalView),
}

impl AudioRepeat {
    pub open spec fn view(&self) -> AudioRepeatView {
        match self {
            AudioRepeat::Times(times) => AudioRepeatView::Times(times@),
            AudioRepeat::Duration(duration) => AudioRepeatView::Duration(duration@),
        }
    }
}

impl Clone for AudioRepeat {
    fn clone(&self) -> (r: Self)
        ensures
            r@ == self@,
    {
        match self {
            AudioRepeat::Times(times) => AudioRepeat::Times(times.clone()),
            AudioRepeat::Duration(duration) => AudioRepeat::Duration(duration.clone()),
        }
    }
}

/// [`Audio`] supports the insertion of recorded audio files and the insertion
/// of other audio formats in conjunction with synthesized speech output.
#[derive(Debug)]
pub struct Audio<'s> {
    src: Cow<'s, str>,
    desc: Option<Cow<'s, str>>,
    alternate: Vec<Element<'s>>,
    clip: (Option<TimeDesignation>, Option<TimeDesignation>),
    repeat: Option<AudioRepeat>,
    sound_level: Option<Decibels>,
    speed: Option<Decimal>,
}

/// The mathematical content of an [`Audio`].
pub struct AudioView {
    /// The URI of the audio.
    pub src: Seq<char>,
    /// An accessible description of the audio.
    pub desc: Option<Seq<char>>,
    /// What is spoken where the audio cannot be played.
    pub alternate: Seq<ElementView>,
    /// Where playback begins, in milliseconds from the start.
    pub clip_begin: Option<DecimalView>,
    /// Where playback ends, in milliseconds from the start.
    pub clip_end: Option<DecimalView>,
    pub repeat: Option<AudioRepeatView>,
    /// The change of volume in decibels.
    pub sound_level: Option<DecimalView>,
    /// The speed of playback, 1 being the normal speed.
    pub speed: Option<DecimalView>,
}

/// The text of an offset of time that may be absent.
pub open spec fn time_text(millis: Option<DecimalView>) -> Option<Seq<char>> {
    match millis {
        Some(millis) => Some(TimeDesignation::text_of(millis)),
        None => None,
    }
}

impl AudioView {
    /// An audio element for the given URI, with nothing else set.
    pub open spec fn of(src: Seq<char>) -> AudioView {
        AudioView {
            src,
            desc: None,
            alternate: Seq::empty(),
            clip_begin: None,
            clip_end: None,
            repeat: None,
            sound_level: None,
            speed: None,
        }
    }

    /// Whether the audio is to be repeated a negative number of times.
    pub open spec fn repeats_negatively(self) -> bool {
        self.repeat matches Some(AudioRepeatView::Times(times)) && times.negative
    }

    /// Whether the audio is to be played at a negative speed.
    pub open spec fn plays_backwards(self) -> bool {
        self.speed matches Some(speed) && speed.negative
    }

    /// What the compatibility checks object to, if anything: Google requires
    /// a source, and neither the number of repetitions nor the speed can be
    /// negative.
    pub open spec fn objection(self, options: SerializeOptions) -> Option<Failure> {
        if !options.perform_checks {
            None
        } else if options.flavor == Flavor::GoogleCloudTextToSpeech && self.src.len() == 0 {
            Some(Failure::MissingAudioSource(options.flavor))
        } else if self.repeats_negatively() {
            Some(Failure::NegativeRepeatCount)
        } else if self.plays_backwards() {
            Some(Failure::NegativeSpeed)
        } else {
            None
        }
    }

    /// The attribute that says how often or how long the audio is repeated.
    pub open spec fn render_repeat(self, so_far: Outcome) -> Outcome {
        match self.repeat {
            Some(AudioRepeatView::Duration(millis)) => so_far.attr(
                "repeatDur"@,
                TimeDesignation::text_of(millis),
            ),
            Some(AudioRepeatView::Times(times)) => so_far.attr("times"@, times.plain_text()),
            None => so_far,
        }
    }

    /// The attributes of the element: the source, the clip, the repetition,
    /// the volume, the speed.
    #[verifier::opaque]
    pub open spec fn render_attrs(self, writer: WriterView) -> Outcome {
        let clip = Outcome::of(writer).attr("src"@, util::escaped(self.src)).attr_opt(
            "clipBegin"@,
            time_text(self.clip_begin),
        ).attr_opt("clipEnd"@, time_text(self.clip_end));
        self.render_repeat(clip).attr_opt(
            "soundLevel"@,
            match self.sound_level {
                Some(level) => Some(Decibels::text_of(level)),
                None => None,
            },
        ).attr_opt(
            "speed"@,
            match self.speed {
                Some(speed) => Some(SpeedFormatter::text_of(speed)),
                None => None,
            },
        )
    }

    /// The description, as a `desc` element around its text.
    pub open spec fn render_desc(self, so_far: Outcome) -> Outcome {
        match self.desc {
            Some(desc) => if so_far.failure is None {
                Outcome::of(so_far.writer.opened("desc"@)).text(desc).close("desc"@, so_far.writer.indent)
            } else {
                so_far
            },
            None => so_far,
        }
    }

    /// What is written inside the element: the attributes, the description,
    /// then the alternate elements.
    pub open spec fn render_body(self, writer: WriterView, options: SerializeOptions) -> Outcome
        decreases self, 0nat,
    {
        util::render_all(self.alternate, 0, self.render_desc(self.render_attrs(writer)), options, true)
    }

    /// An `audio` element, or a failure where the compatibility checks
    /// object.
    #[verifier::opaque]
    pub open spec fn render(self, writer: WriterView, options: SerializeOptions) -> Outcome
        decreases self, 1nat,
    {
        match self.objection(options) {
            Some(failure) => Outcome::of(writer).fail(failure),
            None => self.render_body(writer.opened("audio"@), options).close("audio"@, writer.indent),
        }
    }
}

/// The compatibility checks stand at the door of the element. Where they
/// object, serialization fails with the objection and writes nothing. They
/// object to an empty source only for Google, to a negative number of
/// repetitions and to a negative speed for every flavor, and to nothing once
/// they are switched off. Where they do not object, an element without
/// alternate children is written in full.
pub proof fn lemma_audio_checks(audio: AudioView, writer: WriterView, options: SerializeOptions)
    ensures
        !options.perform_checks ==> audio.objection(options) is None,
        audio.objection(options) == Some(Failure::MissingAudioSource(options.flavor)) <==> options.perform_checks
            && options.flavor == Flavor::GoogleCloudTextToSpeech && audio.src.len() == 0,
        options.perform_checks && audio.repeats_negatively() ==> audio.objection(options) is Some,
        options.perform_checks && audio.plays_backwards() ==> audio.objection(options) is Some,
        audio.objection(options) is Some ==> audio.render(writer, options) == (Outcome {
            writer,
            failure: audio.objection(options),
        }),
        audio.objection(options) is None && audio.alternate.len() == 0 ==> audio.render(
            writer,
            options,
        ).failure is None,
{
    reveal(AudioView::render);
    reveal(AudioView::render_attrs);
    if audio.objection(options) is None && audio.alternate.len() == 0 {
        let start = writer.opened("audio"@);
        let attrs = audio.render_attrs(start);
        assert(attrs.failure is None && attrs.writer.state == XmlState::ElementUnclosed);
        let desc = audio.render_desc(attrs);
        assert(desc.failure is None);
        assert(util::render_all(audio.alternate, 0, desc, options, true) == desc);
    }
}

/// The offset of an optional time designation.
pub open spec fn time_view(time: Option<TimeDesignation>) -> Option<DecimalView> {
    match time {
        Some(time) => Some(time@),
        None => None,
    }
}

/// A copy of a time designation that may be absent.
fn copy_time(time: &Option<TimeDesignation>) -> (r: Option<TimeDesignation>)
    ensures
        time_view(r) == time_view(*time),
{
    match time {
        Some(time) => Some(time.clone()),
        None => None,
    }
}

impl<'s> Audio<'s> {
    pub closed spec fn view(&self) -> AudioView
        decreases self,
    {
        AudioView {
            src: self.src@,
            desc: util::opt_view(self.desc),
            alternate: views(self.alternate@),
            clip_begin: time_view(self.clip.0),
            clip_end: time_view(self.clip.1),
            repeat: match self.repeat {
                Some(repeat) => Some(repeat@),
                None => None,
            },
            sound_level: match self.sound_level {
                Some(level) => Some(level@),
                None => None,
            },
            speed: match self.speed {
                Some(speed) => Some(speed@),
                None => None,
            },
        }
    }

    /// Creates a new [`Audio`] element with an audio source URI.
    pub fn new(src: Cow<'s, str>) -> (r: Self)
        ensures
            r@ == AudioView::of(src@),
    {
        let r = Audio {
            src,
            desc: None,
            alternate: Vec::new(),
            clip: (None, None),
            repeat: None,
            sound_level: None,
            speed: None,
        };
        assert(views(r.alternate@) =~= Seq::empty());
        r
    }

    /// The URI of the audio.
    pub fn src(&self) -> (r: &str)
        ensures
            r@ == self@.src,
    {
        util::cow_str(&self.src)
    }

    /// Replaces the URI of the audio.
    pub fn set_src(&mut self, src: Cow<'s, str>)
        ensures
            final(self)@ == (AudioView { src: src@, ..old(self)@ }),
    {
        self.src = src;
    }

    /// Appends alternate (fallback) elements. Alternate elements will be
    /// spoken or displayed if the audio document located at the specified URI
    /// is unavailable for whatever reason.
    pub fn with_alternate(self, elements: Vec<Element<'s>>) -> (r: Self)
        ensures
            r@ == (AudioView { alternate: self@.alternate + views(elements@), ..self@ }),
    {
        let mut alternate = self.alternate;
        let mut tail = elements;
        alternate.append(&mut tail);
        assert(views(alternate@) =~= views(self.alternate@) + views(elements@));
        Audio {
            src: self.src,
            desc: self.desc,
            alternate,
            clip: self.clip,
            repeat: self.repeat,
            sound_level: self.sound_level,
            speed: self.speed,
        }
    }

    /// Sets an accessible description for this audio element.
    pub fn with_desc(self, desc: Cow<'s, str>) -> (r: Self)
        ensures
            r@ == (AudioView { desc: Some(desc@), ..self@ }),
    {
        Audio { desc: Some(desc), ..self }
    }

    /// The accessible description, if one is set.
    pub fn desc(&self) -> (r: Option<&str>)
        ensures
            r is Some == self@.desc is Some,
            r is Some ==> r->0@ == self@.desc->0,
    {
        util::cow_str_opt(&self.desc)
    }

    /// Sets the accessible description.
    pub fn set_desc(&mut self, desc: Cow<'s, str>)
        ensures
            final(self)@ == (AudioView { desc: Some(desc@), ..old(self)@ }),
    {
        self.desc = Some(desc);
    }

    /// Removes the accessible description, and returns it.
    pub fn take_desc(&mut self) -> (r: Option<Cow<'s, str>>)
        ensures
            util::opt_view(r) == old(self)@.desc,
            final(self)@ == (AudioView { desc: None, ..old(self)@ }),
    {
        self.desc.take()
    }

    /// Specify an offset from the beginning and to the end of which to clip
    /// this audio's duration to.
    pub fn with_clip(self, begin: TimeDesignation, end: TimeDesignation) -> (r: Self)
        ensures
            r@ == (AudioView { clip_begin: Some(begin@), clip_end: Some(end@), ..self@ }),
    {
        Audio { clip: (Some(begin), Some(end)), ..self }
    }

    /// Specify an offset from the beginning of the audio to start playback.
    pub fn with_clip_begin(self, begin: TimeDesignation) -> (r: Self)
        ensures
            r@ == (AudioView { clip_begin: Some(begin@), ..self@ }),
    {
        Audio { clip: (Some(begin), self.clip.1), ..self }
    }

    /// Where playback begins, if it is set.
    pub fn clip_begin(&self) -> (r: Option<&TimeDesignation>)
        ensures
            r is Some == self@.clip_begin is Some,
            r is Some ==> r->0@ == self@.clip_begin->0,
    {
        self.clip.0.as_ref()
    }

    /// Sets where playback begins.
    pub fn set_clip_begin(&mut self, begin: TimeDesignation)
        ensures
            final(self)@ == (AudioView { clip_begin: Some(begin@), ..old(self)@ }),
    {
        self.clip.0 = Some(begin);
    }

    /// Removes the beginning of the clip, and returns it.
    pub fn take_clip_begin(&mut self) -> (r: Option<TimeDesignation>)
        ensures
            time_view(r) == old(self)@.clip_begin,
            final(self)@ == (AudioView { clip_begin: None, ..old(self)@ }),
    {
        self.clip.0.take()
    }

    /// Specify an offset from the beginning of the audio to end playback.
    pub fn with_clip_end(self, end: TimeDesignation) -> (r: Self)
        ensures
            r@ == (AudioView { clip_end: Some(end@), ..self@ }),
    {
        Audio { clip: (self.clip.0, Some(end)), ..self }
    }

    /// Where playback ends, if it is set.
    pub fn clip_end(&self) -> (r: Option<&TimeDesignation>)
        ensures
            r is Some == self@.clip_end is Some,
            r is Some ==> r->0@ == self@.clip_end->0,
    {
        self.clip.1.as_ref()
    }

    /// Sets where playback ends.
    pub fn set_clip_end(&mut self, end: TimeDesignation)
        ensures
            final(self)@ == (AudioView { clip_end: Some(end@), ..old(self)@ }),
    {
        self.clip.1 = Some(end);
    }

    /// Removes the end of the clip, and returns it.
    pub fn take_clip_end(&mut self) -> (r: Option<TimeDesignation>)
        ensures
            time_view(r) == old(self)@.clip_end,
            final(self)@ == (AudioView { clip_end: None, ..old(self)@ }),
    {
        self.clip.1.take()
    }

    /// Repeat this audio source for a set amount of times, or for a set
    /// duration. See [`AudioRepeat`].
    pub fn with_repeat(self, repeat: AudioRepeat) -> (r: Self)
        ensures
            r@ == (AudioView { repeat: Some(repeat@), ..self@ }),
    {
        Audio { repeat: Some(repeat), ..self }
    }

    /// How the audio is repeated, if it is.
    pub fn repeat(&self) -> (r: Option<&AudioRepeat>)
        ensures
            r is Some == self@.repeat is Some,
            r is Some ==> r->0@ == self@.repeat->0,
    {
        self.repeat.as_ref()
    }

    /// Sets how the audio is repeated.
    pub fn set_repeat(&mut self, repeat: AudioRepeat)
        ensures
            final(self)@ == (AudioView { repeat: Some(repeat@), ..old(self)@ }),
    {
        self.repeat = Some(repeat);
    }

    /// Removes the repetition, and returns it.
    pub fn take_repeat(&mut self) -> (r: Option<AudioRepeat>)
        ensures
            r is Some == old(self)@.repeat is Some,
            r is Some ==> r->0@ == old(self)@.repeat->0,
            final(self)@ == (AudioView { repeat: None, ..old(self)@ }),
    {
        self.repeat.take()
    }

    /// Specify the relative volume of the referenced audio, in decibels.
    /// A large negative value like `-100dB` silences the audio; `-6dB` plays
    /// it at about half the volume, `+6dB` at about twice the volume.
    pub fn with_sound_level(self, db: Decibels) -> (r: Self)
        ensures
            r@ == (AudioView { sound_level: Some(db@), ..self@ }),
    {
        Audio { sound_level: Some(db), ..self }
    }

    /// The change of volume, if one is set.
    pub fn sound_level(&self) -> (r: Option<&Decibels>)
        ensures
            r is Some == self@.sound_level is Some,
            r is Some ==> r->0@ == self@.sound_level->0,
    {
        self.sound_level.as_ref()
    }

    /// Sets the change of volume.
    pub fn set_sound_level(&mut self, db: Decibels)
        ensures
            final(self)@ == (AudioView { sound_level: Some(db@), ..old(self)@ }),
    {
        self.sound_level = Some(db);
    }

    /// Removes the change of volume, and returns it.
    pub fn take_sound_level(&mut self) -> (r: Option<Decibels>)
        ensures
            r is Some == old(self)@.sound_level is Some,
            r is Some ==> r->0@ == old(self)@.sound_level->0,
            final(self)@ == (AudioView { sound_level: None, ..old(self)@ }),
    {
        self.sound_level.take()
    }

    /// Specify the speed at which to play the audio clip (where `1` is normal
    /// speed).
    pub fn with_speed(self, speed: Decimal) -> (r: Self)
        ensures
            r@ == (AudioView { speed: Some(speed@), ..self@ }),
    {
        Audio { speed: Some(speed), ..self }
    }

    /// The speed of playback, if one is set.
    pub fn speed(&self) -> (r: Option<&Decimal>)
        ensures
            r is Some == self@.speed is Some,
            r is Some ==> r->0@ == self@.speed->0,
    {
        self.speed.as_ref()
    }

    /// Sets the speed of playback.
    pub fn set_speed(&mut self, speed: Decimal)
        ensures
            final(self)@ == (AudioView { speed: Some(speed@), ..old(self)@ }),
    {
        self.speed = Some(speed);
    }

    /// Removes the speed of playback, and returns it.
    pub fn take_speed(&mut self) -> (r: Option<Decimal>)
        ensures
            r is Some == old(self)@.speed is Some,
            r is Some ==> r->0@ == old(self)@.speed->0,
            final(self)@ == (AudioView { speed: None, ..old(self)@ }),
    {
        self.speed.take()
    }

    /// Returns a reference to the elements contained in this `audio`
    /// element's alternate/fallback section.
    pub fn alternate(&self) -> (r: &Vec<Element<'s>>)
        ensures
            views(r@) == self@.alternate,
    {
        &self.alternate
    }

    /// Returns a mutable reference to the elements contained in this `audio`
    /// element's alternate/fallback section.
    pub fn alternate_mut(&mut self) -> (r: &mut Vec<Element<'s>>)
        ensures
            views(r@) == old(self)@.alternate,
            final(self)@ == (AudioView { alternate: views(final(r)@), ..old(self)@ }),
    {
        &mut self.alternate
    }

    /// A copy that borrows nothing.
    pub fn to_owned(&self) -> (r: Audio<'static>)
        ensures
            r@ == self@,
        decreases self,
    {
        Audio {
            src: util::owned(&self.src),
            desc: util::owned_opt(&self.desc),
            alternate: owned_all(&self.alternate),
            clip: (copy_time(&self.clip.0), copy_time(&self.clip.1)),
            repeat: match &self.repeat {
                Some(repeat) => Some(repeat.clone()),
                None => None,
            },
            sound_level: match &self.sound_level {
                Some(level) => Some(level.clone()),
                None => None,
            },
            speed: match &self.speed {
                Some(speed) => Some(speed.clone()),
                None => None,
            },
        }
    }

    /// The same element, borrowing nothing.
    pub fn into_owned(self) -> (r: Audio<'static>)
        ensures
            r@ == self@,
        decreases self,
    {
        Audio {
            src: util::into_owned(self.src),
            desc: util::into_owned_opt(self.desc),
            alternate: into_owned_all(self.alternate),
            clip: self.clip,
            repeat: self.repeat,
            sound_level: self.sound_level,
            speed: self.speed,
        }
    }

    /// What the compatibility checks object to, if anything.
    fn check(&self, options: &SerializeOptions) -> (r: Result<(), Error>)
        ensures
            crate::error::agrees(r, self@.objection(*options)),
    {
        if options.perform_checks {
            if options.flavor == Flavor::GoogleCloudTextToSpeech && util::cow_str(&self.src).is_empty() {
                return Err(Error::MissingAudioSource(options.flavor));
            }
            if let Some(AudioRepeat::Times(times)) = &self.repeat {
                if times.is_negative() {
                    return Err(Error::NegativeRepeatCount);
                }
            }
            if let Some(speed) = &self.speed {
                if speed.is_negative() {
                    return Err(Error::NegativeSpeed);
                }
            }
        }
        Ok(())
    }
}

impl<'s> Clone for Audio<'s> {
    fn clone(&self) -> (r: Self)
        ensures
            r@ == self@,
    {
        self.to_owned()
    }
}

impl<'s> Serialize for Audio<'s> {
    open spec fn rendered(&self, writer: WriterView, options: SerializeOptions) -> Outcome {
        self@.render(writer, options)
    }

    fn serialize_xml(&self, writer: &mut XmlWriter, options: &SerializeOptions) -> (r: Result<(), Error>)
        decreases self,
    {
        assert(self.rendered(writer@, *options) == self@.render(writer@, *options));
        reveal(AudioView::render);
        self.check(options)?;
        let body = |writer: &mut XmlWriter| -> (r: Result<(), Error>)
            ensures
                self@.render_body(old(writer)@, *options).describes(final(writer)@, r),
            {
                reveal(AudioView::render_attrs);
                writer.attr("src", util::cow_str(&self.src))?;
                writer.attr_opt("clipBegin", self.clip.0.as_ref())?;
                writer.attr_opt("clipEnd", self.clip.1.as_ref())?;
                if let Some(repeat) = &self.repeat {
                    match repeat {
                        AudioRepeat::Duration(dur) => writer.attr("repeatDur", dur)?,
                        AudioRepeat::Times(times) => writer.attr("times", times)?,
                    }
                }
                writer.attr_opt("soundLevel", self.sound_level.as_ref())?;
                let speed = match &self.speed {
                    Some(speed) => Some(SpeedFormatter(speed)),
                    None => None,
                };
                writer.attr_opt("speed", speed)?;
                if let Some(desc) = &self.desc {
                    let inner = |writer: &mut XmlWriter| -> (r: Result<(), Error>)
                        ensures
                            Outcome::of(old(writer)@).text(desc@).describes(final(writer)@, r),
                        { writer.text(util::cow_str(desc)) };
                    writer.element("desc", inner)?;
                }
                util::serialize_elements(writer, &self.alternate, options)
            };
        writer.element("audio", body)
    }
}

/// Creates a new [`Audio`] element with an audio source URI.
pub fn audio<'s>(src: Cow<'s, str>) -> (r: Audio<'s>)
    ensures
        r@ == AudioView::of(src@),
{
    Audio::new(src)
}

} // verus!
