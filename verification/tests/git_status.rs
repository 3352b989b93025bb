use warp_app::LocalGitRepoStatusModel;

#[test]
fn parse_branch_tracking_counts_accepts_git_rev_list_output() {
    assert_eq!(
        LocalGitRepoStatusModel::parse_branch_tracking_counts("2\t3\n"),
        Some((2, 3, 0))
    );
    assert_eq!(
        LocalGitRepoStatusModel::parse_branch_tracking_counts("10 0 4"),
        Some((10, 0, 4))
    );
    assert_eq!(LocalGitRepoStatusModel::parse_branch_tracking_counts("error"), None);
}

#[test]
fn parse_branch_tracking_counts_rejects_wrong_field_counts() {
    assert_eq!(LocalGitRepoStatusModel::parse_branch_tracking_counts(""), None);
    assert_eq!(LocalGitRepoStatusModel::parse_branch_tracking_counts("7"), None);
    assert_eq!(LocalGitRepoStatusModel::parse_branch_tracking_counts("1 2 3 4"), None);
    assert_eq!(LocalGitRepoStatusModel::parse_branch_tracking_counts("1 x"), None);
    assert_eq!(LocalGitRepoStatusModel::parse_branch_tracking_counts("1 2 -3"), None);
}

#[test]
fn parse_branch_tracking_counts_reads_numbers_like_usize_parse() {
    assert_eq!(
        LocalGitRepoStatusModel::parse_branch_tracking_counts("  +5\n\t06  "),
        Some((5, 6, 0))
    );
    assert_eq!(
        LocalGitRepoStatusModel::parse_branch_tracking_counts("18446744073709551615 0"),
        Some((usize::MAX, 0, 0))
    );
    assert_eq!(
        LocalGitRepoStatusModel::parse_branch_tracking_counts("18446744073709551616 0"),
        None
    );
    assert_eq!(LocalGitRepoStatusModel::parse_branch_tracking_counts("+ 1"), None);
}
