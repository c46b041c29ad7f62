use vstd::prelude::*;

verus! {

/// Why a set of sound files cannot drive the reactions.
#[derive(Clone, Copy, Debug, PartialEq, Eq, Structural)]
pub enum SoundFilesError {
    NoLouderAnnouncement,
    NoQuieterAnnouncement,
}

/// The sound files that the reactions play, by path.
pub struct SoundFiles {
    pub annoying: String,
    pub too_loud_anouncement: String,
    pub too_quiet_anouncement: String,
    pub louder_anouncements: Vec<String>,
    pub quieter_anouncements: Vec<String>,
}

/// Relies on rand's `SliceRandom::choose` with `thread_rng`: `None` for an empty
/// slice, otherwise one of its elements.
#[verifier::external_body]
fn choose_one(items: &Vec<String>) -> (r: Option<&String>)
    ensures
        r.is_none() <==> items@.len() == 0,
        r.is_some() ==> items@.contains(*r.unwrap()),
{
    rand::seq::SliceRandom::choose(items.as_slice(), &mut rand::thread_rng())
}

impl SoundFiles {
    /// There is at least one announcement for each direction.
    pub open spec fn wf(&self) -> bool {
        self.louder_anouncements@.len() > 0 && self.quieter_anouncements@.len() > 0
    }

    /// Gather the sound files; each direction needs at least one announcement.
    pub fn new(
        annoying: String,
        too_loud_anouncement: String,
        too_quiet_anouncement: String,
        louder_anouncements: Vec<String>,
        quieter_anouncements: Vec<String>,
    ) -> (r: Result<SoundFiles, SoundFilesError>)
        ensures
            louder_anouncements@.len() == 0 <==> r == Err::<SoundFiles, SoundFilesError>(
                SoundFilesError::NoLouderAnnouncement,
            ),
            louder_anouncements@.len() > 0 && quieter_anouncements@.len() == 0 <==> r == Err::<
                SoundFiles,
                SoundFilesError,
            >(SoundFilesError::NoQuieterAnnouncement),
            r.is_ok() ==> {
                let f = r.unwrap();
                &&& f.wf()
                &&& f.annoying == annoying
                &&& f.too_loud_anouncement == too_loud_anouncement
                &&& f.too_quiet_anouncement == too_quiet_anouncement
                &&& f.louder_anouncements@ == louder_anouncements@
                &&& f.quieter_anouncements@ == quieter_anouncements@
            },
    {
        if louder_anouncements.len() == 0 {
            return Err(SoundFilesError::NoLouderAnnouncement);
        }
        if quieter_anouncements.len() == 0 {
            return Err(SoundFilesError::NoQuieterAnnouncement);
        }
        Ok(
            SoundFiles {
                annoying,
                too_loud_anouncement,
                too_quiet_anouncement,
                louder_anouncements,
                quieter_anouncements,
            },
        )
    }

    /// One of the "louder" announcements, drawn at random.
    pub fn random_louder_announcement(&self) -> (r: &String)
        requires
            self.louder_anouncements@.len() > 0,
        ensures
            self.louder_anouncements@.contains(*r),
    {
        match choose_one(&self.louder_anouncements) {
            Some(path) => path,
            None => &self.louder_anouncements[0],
        }
    }

    /// One of the "quieter" announcements, drawn at random.
    pub fn random_quieter_announcement(&self) -> (r: &String)
        requires
            self.quieter_anouncements@.len() > 0,
        ensures
            self.quieter_anouncements@.contains(*r),
    {
        match choose_one(&self.quieter_anouncements) {
            Some(path) => path,
            None => &self.quieter_anouncements[0],
        }
    }
}

} // verus!
