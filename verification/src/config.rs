//! Static configuration: database, bot and import settings.

use crate::text::{decimal, push_decimal};
use vstd::prelude::*;
use vstd::string::*;

verus! {

/// Where the database is and how to log in.
#[derive(Clone, Debug)]
pub struct DbConfig {
    pub host: String,
    pub port: u16,
    pub user: String,
    pub password: String,
}

/// The bot's token and the user name of its administrator.
#[derive(Clone, Debug)]
pub struct TgConfig {
    pub token: String,
    pub admin: String,
}

/// The show to import, the working directories and the transcription service.
#[derive(Clone, Debug)]
pub struct ImportConfig {
    pub show_id: u32,
    pub download_dir: String,
    pub wav_dir: String,
    pub transcript_dir: String,
    pub transcriber_url: String,
}

/// The whole configuration file.
#[derive(Clone, Debug)]
pub struct Config {
    pub db: DbConfig,
    pub tg: TgConfig,
    pub import: ImportConfig,
}

impl Default for DbConfig {
    /// A local database with the stock account.
    fn default() -> (cfg: Self)
        ensures
            cfg.host@ == "localhost"@,
            cfg.port == 27017,
            cfg.user@ == "ppp"@,
            cfg.password@ == "hackmeeee"@,
    {
        DbConfig {
            host: String::from_str("localhost"),
            port: 27017,
            user: String::from_str("ppp"),
            password: String::from_str("hackmeeee"),
        }
    }
}

impl Default for TgConfig {
    /// No token and no administrator.
    fn default() -> (cfg: Self)
        ensures
            cfg.token@ == Seq::<char>::empty(),
            cfg.admin@ == Seq::<char>::empty(),
    {
        TgConfig { token: String::new(), admin: String::new() }
    }
}

impl Default for ImportConfig {
    /// No show, the stock directories, and a transcription service on this
    /// machine.
    fn default() -> (cfg: Self)
        ensures
            cfg.show_id == 0,
            cfg.download_dir@ == "audio/mp3"@,
            cfg.wav_dir@ == "audio/wav"@,
            cfg.transcript_dir@ == "transcripts"@,
            cfg.transcriber_url@ == "http://localhost:8080/inference"@,
    {
        ImportConfig {
            show_id: 0,
            download_dir: String::from_str("audio/mp3"),
            wav_dir: String::from_str("audio/wav"),
            transcript_dir: String::from_str("transcripts"),
            transcriber_url: String::from_str("http://localhost:8080/inference"),
        }
    }
}

impl Default for Config {
    /// The default of each part.
    fn default() -> (cfg: Self)
        ensures
            cfg.db.host@ == "localhost"@,
            cfg.db.port == 27017,
            cfg.db.user@ == "ppp"@,
            cfg.db.password@ == "hackmeeee"@,
            cfg.tg.token@ == Seq::<char>::empty(),
            cfg.tg.admin@ == Seq::<char>::empty(),
            cfg.import.show_id == 0,
            cfg.import.download_dir@ == "audio/mp3"@,
            cfg.import.wav_dir@ == "audio/wav"@,
            cfg.import.transcript_dir@ == "transcripts"@,
            cfg.import.transcriber_url@ == "http://localhost:8080/inference"@,
    {
        Config {
            db: DbConfig::default(),
            tg: TgConfig::default(),
            import: ImportConfig::default(),
        }
    }
}

/// The path of the file that belongs to episode `id` in directory `dir`:
/// the directory, a slash, the id in decimal, and the extension.
pub open spec fn episode_file(dir: Seq<char>, id: u32, extension: Seq<char>) -> Seq<char> {
    dir + seq!['/'] + decimal(id as nat) + extension
}

/// Builds the path of an episode's file.
fn episode_path(dir: &String, id: u32, extension: &str) -> (path: String)
    ensures
        path@ == episode_file(dir@, id, extension@),
{
    proof {
        reveal_strlit("/");
        assert("/"@ =~= seq!['/']);
    }
    let mut path = dir.clone();
    path.append("/");
    push_decimal(&mut path, id as u64);
    path.append(extension);
    path
}

/// Whether `dir` is one of `existing`.
pub open spec fn dir_listed(existing: Seq<String>, dir: Seq<char>) -> bool {
    exists|i: int| 0 <= i < existing.len() && (#[trigger] existing[i])@ == dir
}

/// Looks `dir` up in `existing`.
pub fn is_listed(existing: &Vec<String>, dir: &String) -> (found: bool)
    ensures
        found == dir_listed(existing@, dir@),
{
    let mut i: usize = 0;
    while i < existing.len()
        invariant
            i <= existing.len(),
            forall|j: int| 0 <= j < i ==> (#[trigger] existing@[j])@ != dir@,
        decreases existing.len() - i,
    {
        if existing[i] == *dir {
            return true;
        }
        i = i + 1;
    }
    false
}

impl ImportConfig {
    /// Where the audio of episode `id` is downloaded to.
    pub open spec fn mp3_file(&self, id: u32) -> Seq<char> {
        episode_file(self.download_dir@, id, seq!['.', 'm', 'p', '3'])
    }

    /// Where the normalized audio of episode `id` lies.
    pub open spec fn wav_file(&self, id: u32) -> Seq<char> {
        episode_file(self.wav_dir@, id, seq!['.', 'w', 'a', 'v'])
    }

    /// Where the transcript of episode `id` is cached.
    pub open spec fn transcript_file(&self, id: u32) -> Seq<char> {
        episode_file(self.transcript_dir@, id, seq!['.', 'j', 's', 'o', 'n'])
    }

    /// The path of the downloaded audio of episode `id`.
    pub fn mp3_path(&self, id: u32) -> (path: String)
        ensures
            path@ == self.mp3_file(id),
    {
        proof {
            reveal_strlit(".mp3");
            assert(".mp3"@ =~= seq!['.', 'm', 'p', '3']);
        }
        episode_path(&self.download_dir, id, ".mp3")
    }

    /// The path of the normalized audio of episode `id`.
    pub fn wav_path(&self, id: u32) -> (path: String)
        ensures
            path@ == self.wav_file(id),
    {
        proof {
            reveal_strlit(".wav");
            assert(".wav"@ =~= seq!['.', 'w', 'a', 'v']);
        }
        episode_path(&self.wav_dir, id, ".wav")
    }

    /// The path of the cached transcript of episode `id`.
    pub fn transcript_path(&self, id: u32) -> (path: String)
        ensures
            path@ == self.transcript_file(id),
    {
        proof {
            reveal_strlit(".json");
            assert(".json"@ =~= seq!['.', 'j', 's', 'o', 'n']);
        }
        episode_path(&self.transcript_dir, id, ".json")
    }

    /// The three working directories, in the order they are checked:
    /// downloads, normalized audio, transcripts.
    pub open spec fn required_dirs_spec(&self) -> Seq<Seq<char>> {
        seq![self.download_dir@, self.wav_dir@, self.transcript_dir@]
    }

    /// The directories that must exist before an import can run.
    pub fn required_dirs(&self) -> (dirs: Vec<String>)
        ensures
            dirs@.len() == 3,
            dirs@.map_values(|d: String| d@) == self.required_dirs_spec(),
    {
        let mut dirs: Vec<String> = Vec::new();
        dirs.push(self.download_dir.clone());
        dirs.push(self.wav_dir.clone());
        dirs.push(self.transcript_dir.clone());
        assert(dirs@.map_values(|d: String| d@) =~= self.required_dirs_spec());
        dirs
    }

    /// Whether every working directory is among `existing`, the directories
    /// that were found on disk.
    pub fn check_dirs(&self, existing: &Vec<String>) -> (ok: bool)
        ensures
            ok == (dir_listed(existing@, self.download_dir@) && dir_listed(
                existing@,
                self.wav_dir@,
            ) && dir_listed(existing@, self.transcript_dir@)),
    {
        is_listed(existing, &self.download_dir) && is_listed(existing, &self.wav_dir) && is_listed(
            existing,
            &self.transcript_dir,
        )
    }
}

} // verus!
