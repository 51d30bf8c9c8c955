use hearth_web::listing::{
    fetches_invitations, filter_from_query, member_fetch, paginate, parse_rows_per_page,
    parse_sort_column, parse_sort_direction, row_count, rows_options, MemberFetch, MemberFilter,
    SortColumn, SortDirection, SortState,
};
use hearth_web::model::{InstanceRole, Timestamp, User, UserLifecycle, Uuid};
use hearth_web::sorting::sort_users;

fn user(n: u128, name: &str, role: InstanceRole, lifecycle: UserLifecycle, joined: i64) -> User {
    User {
        id: Uuid { value: n },
        email: format!("{name}@example.org"),
        display_name: name.to_string(),
        instance_role: role,
        lifecycle,
        created_at: Timestamp::new(joined, 0).unwrap(),
    }
}

fn people() -> Vec<User> {
    vec![
        user(1, "bob", InstanceRole::Member, UserLifecycle::Active, 30),
        user(2, "Alice", InstanceRole::Owner, UserLifecycle::Active, 20),
        user(3, "carol", InstanceRole::Admin, UserLifecycle::Deactivated, 10),
        user(4, "Bob", InstanceRole::Member, UserLifecycle::Anonymized, 5),
    ]
}

fn order(column: SortColumn, direction: SortDirection) -> Vec<u128> {
    sort_users(people(), SortState { column, direction }).iter().map(|u| u.id.value).collect()
}

#[test]
fn members_are_sorted_by_every_column() {
    assert_eq!(order(SortColumn::Joined, SortDirection::Asc), vec![4, 3, 2, 1]);
    assert_eq!(order(SortColumn::Joined, SortDirection::Desc), vec![1, 2, 3, 4]);
    assert_eq!(order(SortColumn::Name, SortDirection::Asc), vec![2, 4, 1, 3]);
    assert_eq!(order(SortColumn::Name, SortDirection::Desc), vec![3, 4, 1, 2]);
    assert_eq!(order(SortColumn::Role, SortDirection::Asc), vec![2, 3, 4, 1]);
    assert_eq!(order(SortColumn::Role, SortDirection::Desc), vec![4, 1, 3, 2]);
    assert_eq!(order(SortColumn::Status, SortDirection::Asc), vec![2, 1, 3, 4]);
    assert_eq!(order(SortColumn::Status, SortDirection::Desc), vec![4, 3, 2, 1]);
}

#[test]
fn names_are_compared_in_lower_case() {
    let s = SortState { column: SortColumn::Name, direction: SortDirection::Asc };
    let sorted = sort_users(
        vec![
            user(1, "ZOE", InstanceRole::Member, UserLifecycle::Active, 1),
            user(2, "äda", InstanceRole::Member, UserLifecycle::Active, 2),
            user(3, "Äda", InstanceRole::Member, UserLifecycle::Active, 1),
        ],
        s,
    );
    let ids: Vec<u128> = sorted.iter().map(|u| u.id.value).collect();
    assert_eq!(ids, vec![1, 3, 2]);
}

#[test]
fn sort_tokens_round_trip() {
    for c in [SortColumn::Name, SortColumn::Role, SortColumn::Status, SortColumn::Joined] {
        assert_eq!(parse_sort_column(Some(c.as_str())), c);
    }
    assert_eq!(parse_sort_column(Some("bogus")), SortColumn::Joined);
    assert_eq!(parse_sort_column(None), SortColumn::Joined);
    assert_eq!(parse_sort_direction(Some("desc")), SortDirection::Desc);
    assert_eq!(parse_sort_direction(Some("DESC")), SortDirection::Asc);
    assert_eq!(parse_sort_direction(None), SortDirection::Asc);
    assert_eq!(SortDirection::Asc.flip(), SortDirection::Desc);
    assert_eq!(SortDirection::Asc.flip().flip(), SortDirection::Asc);
    let d = SortState::default();
    assert_eq!((d.column, d.direction), (SortColumn::Joined, SortDirection::Asc));
}

#[test]
fn filters_decide_what_is_fetched() {
    let all = filter_from_query(None);
    assert_eq!(all, MemberFilter::All);
    assert!(fetches_invitations(all));
    let pending = MemberFilter::Status(UserLifecycle::PendingInvite);
    assert_eq!(filter_from_query(Some(pending.as_str())), pending);
    assert!(fetches_invitations(pending));
    assert!(matches!(member_fetch(pending), MemberFetch::Nothing));
    let owners = MemberFilter::Role(InstanceRole::Owner);
    assert_eq!(filter_from_query(Some(owners.as_str())), owners);
    assert!(!fetches_invitations(owners));
    assert!(matches!(member_fetch(owners), MemberFetch::Listed));
    assert_eq!(filter_from_query(Some("nonsense")), MemberFilter::All);
}

#[test]
fn paging_is_clamped() {
    let p = paginate(95, Some(3), Some(25));
    assert_eq!((p.current_page, p.total_pages, p.rows_per_page, p.total_rows), (3, 4, 25, 95));
    let p = paginate(95, Some(99), Some(25));
    assert_eq!(p.current_page, 4);
    let p = paginate(95, Some(0), Some(7));
    assert_eq!((p.current_page, p.rows_per_page, p.total_pages), (1, 10, 10));
    let p = paginate(0, Some(5), None);
    assert_eq!((p.current_page, p.total_pages), (1, 1));
    let p = paginate(u32::MAX, Some(u32::MAX), Some(100));
    assert_eq!((p.current_page, p.total_pages), (42_949_673, 42_949_673));
    assert_eq!(rows_options(), vec![10, 25, 50, 100]);
    assert_eq!(parse_rows_per_page(Some(50)), 50);
    assert_eq!(parse_rows_per_page(Some(51)), 10);
}

#[test]
fn counters_become_rows() {
    assert_eq!(row_count(-1), 0);
    assert_eq!(row_count(7), 7);
    assert_eq!(row_count(i64::from(u32::MAX) + 1), 0);
    assert_eq!(row_count(i64::from(u32::MAX) + 9), 8);
}
