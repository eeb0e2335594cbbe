//! Library scans, settings toggles, music-directory editing and the cover-art
//! overlay.
use vstd::prelude::*;

use crate::app::{owned, text_message, views_refreshed, App};
use crate::app_lists::shellexpand_home;
use crate::app_play::notified;
use crate::model::{duplicate_tracks, tracks_view_of, Library, Track, TrackView};
use crate::scan::ScanMsg;
use crate::state::Effect;
use crate::text::{chars_of, string_of, trim, trim_chars};

verus! {

/// The last progress report among `msgs`.
pub open spec fn last_progress(msgs: Seq<ScanMsg>) -> Option<(usize, usize)>
    decreases msgs.len(),
{
    if msgs.len() == 0 {
        None
    } else {
        match msgs.last() {
            ScanMsg::Progress { done, total } => Some((done, total)),
            _ => last_progress(msgs.drop_last()),
        }
    }
}

/// The track values of the last finished report among `msgs`.
pub open spec fn last_finished(msgs: Seq<ScanMsg>) -> Option<Seq<TrackView>>
    decreases msgs.len(),
{
    if msgs.len() == 0 {
        None
    } else {
        match msgs.last() {
            ScanMsg::Finished(v) => Some(tracks_view_of(v@)),
            _ => last_finished(msgs.drop_last()),
        }
    }
}

/// The last error report among `msgs`.
pub open spec fn last_error(msgs: Seq<ScanMsg>) -> Option<Seq<char>>
    decreases msgs.len(),
{
    if msgs.len() == 0 {
        None
    } else {
        match msgs.last() {
            ScanMsg::Error(e) => Some(e@),
            _ => last_error(msgs.drop_last()),
        }
    }
}

/// `post` is `pre` with the Settings change saved: the change itself is
/// described by the caller, and one `SaveConfig` is requested.
pub open spec fn saved(pre: App, post: App) -> bool {
    post.effects@ == pre.effects@.push(Effect::SaveConfig)
}

/// The last progress report, error and finished list among `msgs`.
fn scan_reports(msgs: &Vec<ScanMsg>) -> (r: (Option<(usize, usize)>, Option<String>, Option<Vec<Track>>))
    ensures
        r.0 == last_progress(msgs@),
        r.1.is_some() == last_error(msgs@).is_some(),
        r.1 matches Some(e) ==> last_error(msgs@) == Some(e@),
        r.2.is_some() == last_finished(msgs@).is_some(),
        r.2 matches Some(t) ==> last_finished(msgs@) == Some(tracks_view_of(t@)),
{
    let mut progress: Option<(usize, usize)> = None;
    let mut finished: Option<Vec<Track>> = None;
    let mut err: Option<String> = None;
    let mut i: usize = 0;
    while i < msgs.len()
        invariant
            i <= msgs.len(),
            progress == last_progress(msgs@.take(i as int)),
            err.is_some() == last_error(msgs@.take(i as int)).is_some(),
            err matches Some(e) ==> last_error(msgs@.take(i as int)) == Some(e@),
            finished.is_some() == last_finished(msgs@.take(i as int)).is_some(),
            finished matches Some(t) ==> last_finished(msgs@.take(i as int)) == Some(
                tracks_view_of(t@),
            ),
        decreases msgs.len() - i,
    {
        assert(msgs@.take(i + 1).drop_last() =~= msgs@.take(i as int));
        match &msgs[i] {
            ScanMsg::Progress { done, total } => {
                progress = Some((*done, *total));
            },
            ScanMsg::Finished(tracks) => {
                finished = Some(duplicate_tracks(tracks));
            },
            ScanMsg::Error(e) => {
                err = Some(e.clone());
            },
        }
        i = i + 1;
    }
    assert(msgs@.take(msgs.len() as int) =~= msgs@);
    (progress, err, finished)
}

impl App {
    /// Starts a background scan of the music directory.
    pub fn start_scan(&mut self)
        ensures
            start_scan_done(*old(self), *final(self)),
    {
        let dir = self.config.music_dir.clone();
        self.effects.push(Effect::StartScan(dir));
        self.scanning = Some((0, 0));
        self.status = text_message("Scanning ", self.config.music_dir.as_str(), "…");
    }

    /// Takes the messages a running scan has sent since the last call (in
    /// order). Progress is recorded; an error is shown and ends the scan; a
    /// finished list ends the scan and is handed back for storing (see
    /// [`App::persist_and_load`]). The flag returned says whether anything
    /// changed: whether a running scan sent any message. Without a running
    /// scan nothing happens.
    #[verifier::rlimit(50)]
    pub fn poll_scan(&mut self, msgs: Vec<ScanMsg>) -> (res: (bool, Option<Vec<Track>>))
        ensures
            res.0 == (old(self).scanning is Some && msgs@.len() > 0),
            old(self).scanning is None ==> res.1 is None && *final(self) == *old(self),
            old(self).scanning is Some ==> {
                let r = res.1;
                let err = last_error(msgs@);
                let fin = last_finished(msgs@);
                &&& final(self).scanning == if err is Some || fin is Some {
                    None
                } else if last_progress(msgs@) is Some {
                    last_progress(msgs@)
                } else {
                    old(self).scanning
                }
                &&& final(self).status@ == match err {
                    Some(e) => "Scan error: "@ + e,
                    None => old(self).status@,
                }
                &&& match fin {
                    Some(v) => r matches Some(t) && tracks_view_of(t@) == v,
                    None => r is None,
                }
                &&& *final(self) == (App {
                    scanning: final(self).scanning,
                    status: final(self).status,
                    ..*old(self)
                })
            },
    {
        if self.scanning.is_none() {
            return (false, None);
        }
        let changed = msgs.len() > 0;
        let (progress, err, finished) = scan_reports(&msgs);
        if let Some((done, total)) = progress {
            self.scanning = Some((done, total));
        }
        if let Some(e) = err {
            self.status = text_message("Scan error: ", e.as_str(), "");
            proof {
                reveal_strlit("");
            }
            assert(self.status@ =~= "Scan error: "@ + e@);
            self.scanning = None;
        }
        if finished.is_some() {
            self.scanning = None;
        }
        (changed, finished)
    }

    /// Installs the tracks of a finished scan. `stored` is what storing them
    /// in the index and reading them back gave: on success the library holds
    /// what was read back, else the scanned tracks and the failure is shown.
    pub fn persist_and_load(&mut self, scanned: Vec<Track>, stored: Result<Vec<Track>, String>)
        ensures
            persist_and_load_done(*old(self), *final(self), scanned, stored),
    {
        match stored {
            Ok(loaded) => {
                let n = loaded.len();
                self.library = Library::new(loaded);
                self.refresh_views();
                self.status = crate::app::number_message("Scan complete: ", n as u64, " tracks.");
            },
            Err(e) => {
                self.library = Library::new(scanned);
                self.refresh_views();
                self.status = text_message("Loaded (DB save failed: ", e.as_str(), ").");
            },
        }
    }

    /// Sets the music directory and saves the configuration.
    pub fn set_music_dir(&mut self, dir: String)
        ensures
            set_music_dir_done(*old(self), *final(self), dir),
    {
        self.config.music_dir = dir;
        self.effects.push(Effect::SaveConfig);
    }

    /// Switches the double-size transport icons and saves the choice.
    pub fn toggle_big_icons(&mut self)
        ensures
            toggle_big_icons_done(*old(self), *final(self)),
    {
        self.big_icons = !self.big_icons;
        self.config.ui.big_transport_icons = self.big_icons;
        self.effects.push(Effect::SaveConfig);
    }

    /// Switches whether leading articles are ignored when sorting artists,
    /// saves the choice and rebuilds the columns.
    pub fn toggle_sort_articles(&mut self)
        ensures
            toggle_sort_articles_done(*old(self), *final(self)),
    {
        self.config.ui.sort_articles = !self.config.ui.sort_articles;
        self.effects.push(Effect::SaveConfig);
        self.refresh_views();
    }

    /// Asks for every cover in the library to be cached in the background.
    pub fn start_art_precache(&mut self)
        ensures
            start_art_precache_done(*old(self), *final(self)),
    {
        self.effects.push(Effect::StartArtPrecache);
    }

    /// Switches all-library cover caching, saves the choice and says so;
    /// switching it on starts the caching.
    pub fn toggle_cache_all_art(&mut self)
        ensures
            toggle_cache_all_art_done(*old(self), *final(self)),
    {
        self.cache_all_art = !self.cache_all_art;
        self.config.ui.cache_all_art = self.cache_all_art;
        self.effects.push(Effect::SaveConfig);
        if self.cache_all_art {
            self.start_art_precache();
            self.notify(owned("Caching all album art in background…"));
        } else {
            self.notify(owned("Album-art pre-caching off."));
        }
    }

    /// Starts editing the music directory, beginning from the current one.
    pub fn begin_edit_path(&mut self)
        ensures
            begin_edit_path_done(*old(self), *final(self)),
    {
        self.editing_path = Some(self.config.music_dir.clone());
    }

    /// Types a character into the directory being edited.
    pub fn edit_path_input(&mut self, c: char)
        ensures
            edit_path_input_done(*old(self), *final(self), c),
    {
        if let Some(b) = &self.editing_path {
            let mut v = chars_of(b.as_str());
            v.push(c);
            self.editing_path = Some(string_of(&v));
        }
    }

    /// Deletes the last character of the directory being edited.
    pub fn edit_path_backspace(&mut self)
        ensures
            edit_path_backspace_done(*old(self), *final(self)),
    {
        if let Some(b) = &self.editing_path {
            let mut v = chars_of(b.as_str());
            if v.len() > 0 {
                v.pop();
            }
            self.editing_path = Some(string_of(&v));
        }
    }

    /// Stops editing the directory without changing it.
    pub fn cancel_edit_path(&mut self)
        ensures
            cancel_edit_path_done(*old(self), *final(self)),
    {
        self.editing_path = None;
    }

    /// Finishes editing: a non-blank entry (trimmed, with `~/` expanded)
    /// becomes the music directory, is saved and announced.
    pub fn commit_edit_path(&mut self)
        ensures
            commit_edit_path_done(*old(self), *final(self)),
    {
        let buf = match self.editing_path.take() {
            Some(b) => b,
            None => {
                return;
            },
        };
        let trimmed = string_of(&trim_chars(&chars_of(buf.as_str())));
        if trimmed.as_str().unicode_len() == 0 {
            return;
        }
        let dir = shellexpand_home(trimmed.as_str());
        self.set_music_dir(dir);
        let msg = text_message("Music dir set to ", self.config.music_dir.as_str(), "");
        proof {
            reveal_strlit("");
        }
        assert(msg@ =~= "Music dir set to "@ + self.config.music_dir@);
        self.notify(msg);
    }

    /// Opens the large cover-art overlay and asks for its image.
    pub fn open_art_popup(&mut self)
        ensures
            open_art_popup_done(*old(self), *final(self)),
    {
        self.show_art_popup = true;
        self.effects.push(Effect::OpenArtPopup);
    }
}

/// What [`App::start_scan`] does.
pub open spec fn start_scan_done(pre: App, post: App) -> bool {
    &&& post.effects@ == pre.effects@.push(
        Effect::StartScan(post.config.music_dir),
    )
    &&& post.scanning == Some((0usize, 0usize))
    &&& post.status@ == "Scanning "@ + pre.config.music_dir@ + "…"@
    &&& post == (App {
        effects: post.effects,
        scanning: post.scanning,
        status: post.status,
        ..pre
    })
}

/// What [`App::persist_and_load`] does.
pub open spec fn persist_and_load_done(pre: App, post: App, scanned: Vec<Track>, stored: Result<Vec<Track>, String>) -> bool {
    let lib = match stored {
        Ok(loaded) => tracks_view_of(loaded@),
        Err(_) => tracks_view_of(scanned@),
    };
    &&& post.library@ == lib
    &&& views_refreshed(
        App { library: post.library, ..pre },
        App { status: pre.status, ..post },
    )
    &&& post.status@ == match stored {
        Ok(loaded) => "Scan complete: "@ + crate::text::decimal(loaded@.len())
            + " tracks."@,
        Err(e) => "Loaded (DB save failed: "@ + e@ + ")."@,
    }
}

/// What [`App::set_music_dir`] does.
pub open spec fn set_music_dir_done(pre: App, post: App, dir: String) -> bool {
    &&& post.config.music_dir@ == dir@
    &&& saved(pre, post)
    &&& post == (App {
        config: crate::config::Config { music_dir: post.config.music_dir, ..pre.config },
        effects: post.effects,
        ..pre
    })
}

/// What [`App::toggle_big_icons`] does.
pub open spec fn toggle_big_icons_done(pre: App, post: App) -> bool {
    &&& post.big_icons == !pre.big_icons
    &&& post.config.ui.big_transport_icons == post.big_icons
    &&& saved(pre, post)
    &&& post == (App {
        big_icons: post.big_icons,
        config: crate::config::Config {
            ui: crate::config::UiConfig {
                big_transport_icons: post.big_icons,
                ..pre.config.ui
            },
            ..pre.config
        },
        effects: post.effects,
        ..pre
    })
}

/// What [`App::toggle_sort_articles`] does.
pub open spec fn toggle_sort_articles_done(pre: App, post: App) -> bool {
    &&& post.config.ui.sort_articles == !pre.config.ui.sort_articles
    &&& saved(pre, post)
    &&& views_refreshed(
        App {
            config: post.config,
            effects: post.effects,
            ..pre
        },
        post,
    )
    &&& post.config == (crate::config::Config {
        ui: crate::config::UiConfig {
            sort_articles: !pre.config.ui.sort_articles,
            ..pre.config.ui
        },
        ..pre.config
    })
}

/// What [`App::start_art_precache`] does.
pub open spec fn start_art_precache_done(pre: App, post: App) -> bool {
    &&& post == (App { effects: post.effects, ..pre })
    &&& post.effects@ == pre.effects@.push(Effect::StartArtPrecache)
}

/// What [`App::toggle_cache_all_art`] does.
pub open spec fn toggle_cache_all_art_done(pre: App, post: App) -> bool {
    &&& post.cache_all_art == !pre.cache_all_art
    &&& post.effects@ == if post.cache_all_art {
        pre.effects@.push(Effect::SaveConfig).push(Effect::StartArtPrecache)
    } else {
        pre.effects@.push(Effect::SaveConfig)
    }
    &&& notified(
        App {
            cache_all_art: post.cache_all_art,
            config: crate::config::Config {
                ui: crate::config::UiConfig {
                    cache_all_art: post.cache_all_art,
                    ..pre.config.ui
                },
                ..pre.config
            },
            effects: post.effects,
            ..pre
        },
        post,
        if post.cache_all_art {
            "Caching all album art in background…"@
        } else {
            "Album-art pre-caching off."@
        },
    )
}

/// What [`App::begin_edit_path`] does.
pub open spec fn begin_edit_path_done(pre: App, post: App) -> bool {
    &&& (post.editing_path matches Some(b) && b@ == pre.config.music_dir@)
    &&& post == (App { editing_path: post.editing_path, ..pre })
}

/// What [`App::edit_path_input`] does.
pub open spec fn edit_path_input_done(pre: App, post: App, c: char) -> bool {
    &&& match pre.editing_path {
        Some(b) => (post.editing_path matches Some(n) && n@ == b@.push(c))
            && post == (App {
            editing_path: post.editing_path,
            ..pre
        }),
        None => post == pre,
    }
}

/// What [`App::edit_path_backspace`] does.
pub open spec fn edit_path_backspace_done(pre: App, post: App) -> bool {
    &&& match pre.editing_path {
        Some(b) => (post.editing_path matches Some(n) && n@ == (if b@.len() > 0 {
            b@.drop_last()
        } else {
            b@
        })) && post == (App {
            editing_path: post.editing_path,
            ..pre
        }),
        None => post == pre,
    }
}

/// What [`App::cancel_edit_path`] does.
pub open spec fn cancel_edit_path_done(pre: App, post: App) -> bool {
    &&& post == (App { editing_path: None, ..pre })
}

/// What [`App::commit_edit_path`] does.
pub open spec fn commit_edit_path_done(pre: App, post: App) -> bool {
    &&& match pre.editing_path {
        None => post == pre,
        Some(b) => if trim(b@).len() == 0 {
            post == (App { editing_path: None, ..pre })
        } else {
            &&& crate::app_lists::home_expanded(trim(b@), post.config.music_dir@)
            &&& saved(pre, post)
            &&& notified(
                App {
                    editing_path: None,
                    config: crate::config::Config {
                        music_dir: post.config.music_dir,
                        ..pre.config
                    },
                    effects: post.effects,
                    ..pre
                },
                post,
                "Music dir set to "@ + post.config.music_dir@,
            )
        },
    }
}

/// What [`App::open_art_popup`] does.
pub open spec fn open_art_popup_done(pre: App, post: App) -> bool {
    &&& post == (App {
        show_art_popup: true,
        effects: post.effects,
        ..pre
    })
    &&& post.effects@ == pre.effects@.push(Effect::OpenArtPopup)
}

/// Playlists hold their tracks in full, so installing a rescanned library
/// leaves them as they were.
pub proof fn law_rescan_keeps_playlists(pre: App, post: App, scanned: Vec<Track>, stored: Result<Vec<Track>, String>)
    requires
        persist_and_load_done(pre, post, scanned, stored),
    ensures
        post.playlists == pre.playlists,
        post.queue == pre.queue,
{
}

} // verus!
