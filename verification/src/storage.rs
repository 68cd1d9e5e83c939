//! The catalogue in memory: adding, changing, finding and removing entries.
//! Reading and writing the file that keeps it is left to the caller.

use vstd::prelude::*;
use crate::models::{AppData, AppSettings, AppStorage, CategoryData};
use crate::settings::get_default_settings;
use crate::text::opt_view;

verus! {

/// Why the catalogue was not changed.
#[derive(Clone, Copy, Debug, PartialEq, Eq, Structural)]
pub enum StorageError {
    /// No entry has the given identifier.
    AppNotFound,
}

/// The category that stands for all entries.
pub const ALL_CATEGORIES: &'static str = "all";

/// What is reported when no entry has the given identifier.
pub const APP_NOT_FOUND: &'static str = "应用不存在";

/// The position of the first entry with the given identifier.
pub open spec fn position_of(apps: Seq<AppData>, id: i64) -> Option<int>
    decreases apps.len(),
{
    if apps.len() == 0 {
        None
    } else {
        match position_of(apps.drop_last(), id) {
            Some(i) => Some(i),
            None => if apps.last().id == id {
                Some(apps.len() - 1)
            } else {
                None
            },
        }
    }
}

/// The entries without those that have the given identifier, in order.
pub open spec fn without_id(apps: Seq<AppData>, id: i64) -> Seq<AppData>
    decreases apps.len(),
{
    if apps.len() == 0 {
        Seq::empty()
    } else if apps.last().id == id {
        without_id(apps.drop_last(), id)
    } else {
        without_id(apps.drop_last(), id).push(apps.last())
    }
}

/// `position_of` finds the first entry with the identifier, and finds none
/// only when no entry has it.
pub proof fn lemma_position_of(apps: Seq<AppData>, id: i64)
    ensures
        match position_of(apps, id) {
            Some(i) => 0 <= i < apps.len() && apps[i].id == id && forall|j: int|
                0 <= j < i ==> apps[j].id != id,
            None => forall|j: int| 0 <= j < apps.len() ==> apps[j].id != id,
        },
    decreases apps.len(),
{
    if apps.len() > 0 {
        lemma_position_of(apps.drop_last(), id);
        assert(forall|j: int| 0 <= j < apps.len() - 1 ==> apps.drop_last()[j] == apps[j]);
    }
}

/// After a removal no entry has the removed identifier, and every other
/// entry is still there.
pub proof fn lemma_without_id(apps: Seq<AppData>, id: i64)
    ensures
        forall|j: int|
            0 <= j < without_id(apps, id).len() ==> (#[trigger] without_id(apps, id)[j]).id != id,
        forall|j: int|
            0 <= j < apps.len() && apps[j].id != id ==> without_id(apps, id).contains(
                #[trigger] apps[j],
            ),
        without_id(apps, id).len() <= apps.len(),
    decreases apps.len(),
{
    if apps.len() > 0 {
        let before = apps.drop_last();
        lemma_without_id(before, id);
        let kept = without_id(before, id);
        assert forall|j: int| 0 <= j < apps.len() && apps[j].id != id implies without_id(
            apps,
            id,
        ).contains(#[trigger] apps[j]) by {
            if j < apps.len() - 1 {
                assert(before[j] == apps[j]);
                assert(kept.contains(before[j]));
                let k = choose|k: int| 0 <= k < kept.len() && kept[k] == before[j];
                assert(without_id(apps, id)[k] == apps[j]);
            } else {
                assert(without_id(apps, id) == kept.push(apps.last()));
                assert(without_id(apps, id)[kept.len() as int] == apps[j]);
            }
        }
    }
}

/// A copy of an optional string.
fn copy_text(text: &Option<String>) -> (copy: Option<String>)
    ensures
        copy == *text,
{
    match text {
        Some(t) => Some(t.clone()),
        None => None,
    }
}

/// A copy of an entry.
pub fn copy_app(app: &AppData) -> (copy: AppData)
    ensures
        copy == *app,
{
    AppData {
        id: app.id,
        name: app.name.clone(),
        category: app.category.clone(),
        icon: app.icon.clone(),
        path: app.path.clone(),
        target_path: copy_text(&app.target_path),
        is_shortcut: app.is_shortcut,
        launch_args: copy_text(&app.launch_args),
        target_type: copy_text(&app.target_type),
    }
}

/// The catalogue of a fresh installation: no entries, no categories, and
/// all entries in view.
pub fn empty_storage() -> (storage: AppStorage)
    ensures
        storage.apps@.len() == 0,
        storage.categories@.len() == 0,
        opt_view(storage.selected_category) == Some(ALL_CATEGORIES@),
{
    AppStorage {
        apps: Vec::new(),
        categories: Vec::new(),
        selected_category: Some(ALL_CATEGORIES.to_owned()),
    }
}

/// The catalogue that is put together from its parts before it is stored.
pub fn save_app_data(
    apps: Vec<AppData>,
    categories: Vec<CategoryData>,
    selected_category: Option<String>,
) -> (storage: AppStorage)
    ensures
        storage.apps == apps,
        storage.categories == categories,
        storage.selected_category == selected_category,
{
    AppStorage { apps, categories, selected_category }
}

/// The position of the first entry with the given identifier.
pub fn find_app(apps: &Vec<AppData>, app_id: i64) -> (found: Option<usize>)
    ensures
        match found {
            Some(i) => position_of(apps@, app_id) == Some(i as int) && i < apps.len(),
            None => position_of(apps@, app_id) is None,
        },
{
    let mut i: usize = 0;
    assert(apps@.take(0) == Seq::<AppData>::empty());
    while i < apps.len()
        invariant
            i <= apps.len(),
            position_of(apps@.take(i as int), app_id) is None,
        decreases apps.len() - i,
    {
        assert(apps@.take(i + 1).drop_last() == apps@.take(i as int));
        if apps[i].id == app_id {
            proof {
                lemma_position_prefix(apps@, app_id, i + 1);
            }
            return Some(i);
        }
        i += 1;
    }
    assert(apps@.take(apps@.len() as int) == apps@);
    None
}

/// A position found among the first `n` entries is the position among all.
pub proof fn lemma_position_prefix(apps: Seq<AppData>, id: i64, n: int)
    requires
        0 <= n <= apps.len(),
        position_of(apps.take(n), id) is Some,
    ensures
        position_of(apps, id) == position_of(apps.take(n), id),
    decreases apps.len() - n,
{
    if n < apps.len() {
        assert(apps.take(n + 1).drop_last() == apps.take(n));
        lemma_position_prefix(apps, id, n + 1);
    } else {
        assert(apps.take(n) == apps);
    }
}

/// Removes every entry with the given identifier.
pub fn delete_app(storage: &mut AppStorage, app_id: i64)
    ensures
        final(storage).apps@ == without_id(old(storage).apps@, app_id),
        final(storage).categories == old(storage).categories,
        final(storage).selected_category == old(storage).selected_category,
{
    let mut kept: Vec<AppData> = Vec::new();
    let mut i: usize = 0;
    assert(storage.apps@.take(0) == Seq::<AppData>::empty());
    while i < storage.apps.len()
        invariant
            i <= storage.apps.len(),
            *storage == *old(storage),
            kept@ == without_id(storage.apps@.take(i as int), app_id),
        decreases storage.apps.len() - i,
    {
        assert(storage.apps@.take(i + 1).drop_last() == storage.apps@.take(i as int));
        if storage.apps[i].id != app_id {
            kept.push(copy_app(&storage.apps[i]));
        }
        i += 1;
    }
    assert(storage.apps@.take(storage.apps@.len() as int) == storage.apps@);
    storage.apps = kept;
}

/// Adds an entry at the end.
pub fn add_new_app(storage: &mut AppStorage, app: AppData)
    ensures
        final(storage).apps@ == old(storage).apps@.push(app),
        final(storage).categories == old(storage).categories,
        final(storage).selected_category == old(storage).selected_category,
{
    storage.apps.push(app);
}

/// Replaces the first entry that has the identifier of `app`. Fails, and
/// changes nothing, when there is no such entry.
pub fn update_app(storage: &mut AppStorage, app: AppData) -> (r: Result<(), StorageError>)
    ensures
        match position_of(old(storage).apps@, app.id) {
            Some(i) => r is Ok && final(storage).apps@ == old(storage).apps@.update(i, app),
            None => r == Err::<(), StorageError>(StorageError::AppNotFound) && final(storage).apps@
                == old(storage).apps@,
        },
        final(storage).categories == old(storage).categories,
        final(storage).selected_category == old(storage).selected_category,
{
    match find_app(&storage.apps, app.id) {
        Some(i) => {
            storage.apps.set(i, app);
            Ok(())
        },
        None => Err(StorageError::AppNotFound),
    }
}

/// Moves the first entry with the given identifier to another category.
/// Fails, and changes nothing, when there is no such entry.
pub fn update_app_category(storage: &mut AppStorage, app_id: i64, new_category: String) -> (r:
    Result<(), StorageError>)
    ensures
        match position_of(old(storage).apps@, app_id) {
            Some(i) => r is Ok && final(storage).apps@ == old(storage).apps@.update(
                i,
                AppData { category: new_category, ..old(storage).apps@[i] },
            ),
            None => r == Err::<(), StorageError>(StorageError::AppNotFound) && final(storage).apps@
                == old(storage).apps@,
        },
        final(storage).categories == old(storage).categories,
        final(storage).selected_category == old(storage).selected_category,
{
    match find_app(&storage.apps, app_id) {
        Some(i) => {
            let mut changed = copy_app(&storage.apps[i]);
            changed.category = new_category;
            storage.apps.set(i, changed);
            Ok(())
        },
        None => Err(StorageError::AppNotFound),
    }
}

/// Remembers the category that is in view.
pub fn save_selected_category(storage: &mut AppStorage, category_id: String)
    ensures
        final(storage).selected_category == Some(category_id),
        final(storage).apps == old(storage).apps,
        final(storage).categories == old(storage).categories,
{
    storage.selected_category = Some(category_id);
}

/// A copy of the first entry with the given identifier.
pub fn get_app_by_id(storage: &AppStorage, app_id: i64) -> (r: Result<AppData, StorageError>)
    ensures
        match position_of(storage.apps@, app_id) {
            Some(i) => r == Ok::<AppData, StorageError>(storage.apps@[i]),
            None => r == Err::<AppData, StorageError>(StorageError::AppNotFound),
        },
{
    match find_app(&storage.apps, app_id) {
        Some(i) => Ok(copy_app(&storage.apps[i])),
        None => Err(StorageError::AppNotFound),
    }
}

/// The state after everything was cleared: an empty catalogue and the
/// default settings.
pub fn clear_all_data() -> (r: (AppStorage, AppSettings))
    ensures
        r.0.apps@.len() == 0,
        r.0.categories@.len() == 0,
        opt_view(r.0.selected_category) == Some(ALL_CATEGORIES@),
        r.1.window_width == Some(800u32),
        r.1.window_height == Some(600u32),
        !r.1.prevent_auto_hide,
{
    (empty_storage(), get_default_settings())
}

/// An entry that was added can be found again, unless an earlier entry has
/// its identifier.
pub proof fn lemma_added_app_is_found(apps: Seq<AppData>, app: AppData)
    requires
        position_of(apps, app.id) is None,
    ensures
        position_of(apps.push(app), app.id) == Some(apps.len() as int),
{
    assert(apps.push(app).drop_last() == apps);
}

/// An entry that was removed cannot be found any more.
pub proof fn lemma_deleted_app_is_gone(apps: Seq<AppData>, id: i64)
    ensures
        position_of(without_id(apps, id), id) is None,
{
    lemma_without_id(apps, id);
    lemma_position_of(without_id(apps, id), id);
}

} // verus!
