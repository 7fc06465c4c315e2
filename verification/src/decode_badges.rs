//! Decoding the `[badges]` table. A badge that is not as it should be is
//! no reason to refuse a manifest: it is left out.

use vstd::prelude::*;
use crate::badges::{Badge, BadgeView, Badges, BadgesView, Maintenance, MaintenanceStatus};
use crate::decode::{agrees, at, at_either, decode_entries, decode_opt_string, defaulted, demanded, expected, find, find_either, lookup, missing, opt_string_of, reads};
use crate::error::Error;
use crate::value::{TomlValue, TomlValueView};

verus! {

/// How a package is looked after, as one of seven words.
pub open spec fn maintenance_status_of(v: TomlValueView) -> Result<MaintenanceStatus, ()> {
    match v {
        TomlValueView::String(s) => if s == "none"@ {
            Ok(MaintenanceStatus::NoBadge)
        } else if s == "actively-developed"@ {
            Ok(MaintenanceStatus::ActivelyDeveloped)
        } else if s == "passively-maintained"@ {
            Ok(MaintenanceStatus::PassivelyMaintained)
        } else if s == "as-is"@ {
            Ok(MaintenanceStatus::AsIs)
        } else if s == "experimental"@ {
            Ok(MaintenanceStatus::Experimental)
        } else if s == "looking-for-maintainer"@ {
            Ok(MaintenanceStatus::LookingForMaintainer)
        } else if s == "deprecated"@ {
            Ok(MaintenanceStatus::Deprecated)
        } else {
            Err(())
        },
        _ => Err(()),
    }
}

/// Reads a maintenance status.
pub fn decode_maintenance_status(v: &TomlValue) -> (r: Result<MaintenanceStatus, Error>)
    ensures
        agrees(r, maintenance_status_of(v.deep_view())),
{
    match v {
        TomlValue::String(s) => {
            if reads(s, "none") {
                Ok(MaintenanceStatus::NoBadge)
            } else if reads(s, "actively-developed") {
                Ok(MaintenanceStatus::ActivelyDeveloped)
            } else if reads(s, "passively-maintained") {
                Ok(MaintenanceStatus::PassivelyMaintained)
            } else if reads(s, "as-is") {
                Ok(MaintenanceStatus::AsIs)
            } else if reads(s, "experimental") {
                Ok(MaintenanceStatus::Experimental)
            } else if reads(s, "looking-for-maintainer") {
                Ok(MaintenanceStatus::LookingForMaintainer)
            } else if reads(s, "deprecated") {
                Ok(MaintenanceStatus::Deprecated)
            } else {
                Err(expected("a maintenance status"))
            }
        },
        _ => Err(expected("a maintenance status")),
    }
}

/// A maintenance status, under a key that may be left out.
pub open spec fn opt_maintenance_status_of(found: Result<Option<TomlValueView>, ()>) -> Result<Option<MaintenanceStatus>, ()> {
    match found {
        Ok(Some(v)) => match maintenance_status_of(v) {
            Ok(x) => Ok(Some(x)),
            Err(_) => Err(()),
        },
        Ok(None) => Ok(None),
        Err(_) => Err(()),
    }
}

/// Reads a maintenance status, if the key was found.
pub fn decode_opt_maintenance_status(found: Option<&TomlValue>) -> (r: Result<Option<MaintenanceStatus>, Error>)
    ensures
        agrees(r, opt_maintenance_status_of(Ok(found.deep_view()))),
{
    match found {
        Some(v) => match decode_maintenance_status(v) {
            Ok(x) => Ok(Some(x)),
            Err(e) => Err(e),
        },
        None => Ok(None),
    }
}

/// The `maintenance` badge: a table with a `status`.
pub open spec fn maintenance_of(v: TomlValueView) -> Result<Maintenance, ()> {
    match v {
        TomlValueView::Table(t) => {
            let status = demanded(opt_maintenance_status_of(at(t, "status"@)));
            if status is Ok {
                Ok(
                    Maintenance {
                        status: status->Ok_0,
                    },
                )
            } else {
                Err(())
            }
        },
        _ => Err(()),
    }
}

/// Reads the `maintenance` badge.
pub fn decode_maintenance(v: &TomlValue) -> (r: Result<Maintenance, Error>)
    ensures
        agrees(r, maintenance_of(v.deep_view())),
{
    let t = decode_entries(v, "a table for the maintenance badge")?;
    let status = match decode_opt_maintenance_status(find(t, "status"))? {
        Some(x) => x,
        None => return Err(missing("status")),
    };
    Ok(Maintenance {
        status,
    })
}

/// A badge: a table with at least a `repository`. The branch is `master`
/// where none is given.
pub open spec fn badge_of(v: TomlValueView) -> Result<BadgeView, ()> {
    match v {
        TomlValueView::Table(t) => {
            let repository = demanded(opt_string_of(at(t, "repository"@)));
            let branch = defaulted(opt_string_of(at(t, "branch"@)), "master"@);
            let service = opt_string_of(at(t, "service"@));
            let id = opt_string_of(at(t, "id"@));
            let project_name = opt_string_of(at_either(t, "project-name"@, "project_name"@));
            if repository is Ok && branch is Ok && service is Ok && id is Ok && project_name is Ok {
                Ok(
                    BadgeView {
                        repository: repository->Ok_0,
                        branch: branch->Ok_0,
                        service: service->Ok_0,
                        id: id->Ok_0,
                        project_name: project_name->Ok_0,
                    },
                )
            } else {
                Err(())
            }
        },
        _ => Err(()),
    }
}

/// Reads a badge.
pub fn decode_badge(v: &TomlValue) -> (r: Result<Badge, Error>)
    ensures
        agrees(r, badge_of(v.deep_view())),
{
    let t = decode_entries(v, "a table for a badge")?;
    let repository = match decode_opt_string(find(t, "repository"))? {
        Some(x) => x,
        None => return Err(missing("repository")),
    };
    let branch = match decode_opt_string(find(t, "branch"))? {
        Some(x) => x,
        None => "master".to_owned(),
    };
    let service = decode_opt_string(find(t, "service"))?;
    let id = decode_opt_string(find(t, "id"))?;
    let project_name = decode_opt_string(find_either(t, "project-name", "project_name")?)?;
    Ok(Badge {
        repository,
        branch,
        service,
        id,
        project_name,
    })
}

/// The badge under a key, if the key is there and its value is a badge.
pub open spec fn sound_badge(found: Option<TomlValueView>) -> Option<BadgeView> {
    match found {
        Some(v) => match badge_of(v) {
            Ok(badge) => Some(badge),
            Err(_) => None,
        },
        None => None,
    }
}

/// Reads the badge under a key, if there is a sound one.
pub fn decode_sound_badge(found: Option<&TomlValue>) -> (r: Option<Badge>)
    ensures
        r.deep_view() == sound_badge(found.deep_view()),
{
    match found {
        Some(v) => match decode_badge(v) {
            Ok(badge) => Some(badge),
            Err(_) => None,
        },
        None => None,
    }
}

/// The maintenance badge under its key: where the key is not there or its
/// value is not as it should be, the badge that says nothing.
pub open spec fn sound_maintenance(found: Option<TomlValueView>) -> Maintenance {
    match found {
        Some(v) => match maintenance_of(v) {
            Ok(maintenance) => maintenance,
            Err(_) => Maintenance { status: MaintenanceStatus::NoBadge },
        },
        None => Maintenance { status: MaintenanceStatus::NoBadge },
    }
}

/// Reads the maintenance badge.
pub fn decode_sound_maintenance(found: Option<&TomlValue>) -> (r: Maintenance)
    ensures
        r == sound_maintenance(found.deep_view()),
{
    match found {
        Some(v) => match decode_maintenance(v) {
            Ok(maintenance) => maintenance,
            Err(_) => Maintenance { status: MaintenanceStatus::NoBadge },
        },
        None => Maintenance { status: MaintenanceStatus::NoBadge },
    }
}

/// The `[badges]` table: any table is one.
pub open spec fn badges_of(v: TomlValueView) -> Result<BadgesView, ()> {
    match v {
        TomlValueView::Table(t) => Ok(
            BadgesView {
                appveyor: sound_badge(lookup(t, "appveyor"@)),
                circle_ci: sound_badge(lookup(t, "circle-ci"@)),
                gitlab: sound_badge(lookup(t, "gitlab"@)),
                travis_ci: sound_badge(lookup(t, "travis-ci"@)),
                codecov: sound_badge(lookup(t, "codecov"@)),
                coveralls: sound_badge(lookup(t, "coveralls"@)),
                is_it_maintained_issue_resolution: sound_badge(lookup(t, "is-it-maintained-issue-resolution"@)),
                is_it_maintained_open_issues: sound_badge(lookup(t, "is-it-maintained-open-issues"@)),
                maintenance: sound_maintenance(lookup(t, "maintenance"@)),
            },
        ),
        _ => Err(()),
    }
}

/// Reads the `[badges]` table.
pub fn decode_badges(v: &TomlValue) -> (r: Result<Badges, Error>)
    ensures
        agrees(r, badges_of(v.deep_view())),
{
    let t = decode_entries(v, "a table of badges")?;
    Ok(
        Badges {
            appveyor: decode_sound_badge(find(t, "appveyor")),
            circle_ci: decode_sound_badge(find(t, "circle-ci")),
            gitlab: decode_sound_badge(find(t, "gitlab")),
            travis_ci: decode_sound_badge(find(t, "travis-ci")),
            codecov: decode_sound_badge(find(t, "codecov")),
            coveralls: decode_sound_badge(find(t, "coveralls")),
            is_it_maintained_issue_resolution: decode_sound_badge(find(t, "is-it-maintained-issue-resolution")),
            is_it_maintained_open_issues: decode_sound_badge(find(t, "is-it-maintained-open-issues")),
            maintenance: decode_sound_maintenance(find(t, "maintenance")),
        },
    )
}

/// The `[badges]` table, under a key that may be left out.
pub open spec fn opt_badges_of(found: Result<Option<TomlValueView>, ()>) -> Result<Option<BadgesView>, ()> {
    match found {
        Ok(Some(v)) => match badges_of(v) {
            Ok(x) => Ok(Some(x)),
            Err(_) => Err(()),
        },
        Ok(None) => Ok(None),
        Err(_) => Err(()),
    }
}

/// Reads the `[badges]` table, if the key was found.
pub fn decode_opt_badges(found: Option<&TomlValue>) -> (r: Result<Option<Badges>, Error>)
    ensures
        agrees(r, opt_badges_of(Ok(found.deep_view()))),
{
    match found {
        Some(v) => match decode_badges(v) {
            Ok(x) => Ok(Some(x)),
            Err(e) => Err(e),
        },
        None => Ok(None),
    }
}

} // verus!
