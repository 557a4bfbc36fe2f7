use nsq_client::codec::Cmd as Built;
use nsq_client::msgs::{Auth, Cls, Cmd, Dpub, Fin, Identify, Mpub, Nop, NsqCmd, Pub, Rdy, Requeue, Subscribe, Touch};

#[test]
fn command_lines() {
    assert_eq!(Fin("id1".to_owned()).cmd(), "FIN id1");
    assert_eq!(Touch("id1".to_owned()).cmd(), "TOUCH id1");
    assert_eq!(Requeue("id1".to_owned(), 30).cmd(), "REQ id1 30");
    assert_eq!(Pub("t".to_owned(), vec![1]).cmd(), "PUB t");
    assert_eq!(Mpub("t".to_owned(), vec![]).cmd(), "MPUB t");
    assert_eq!(Dpub("t".to_owned(), 250, vec![]).cmd(), "DPUB t 250");
    assert_eq!(Identify("{}".to_owned()).cmd(), "IDENTIFY");
    assert_eq!(Subscribe("t".to_owned(), "c".to_owned()).cmd(), "SUB t c");
    assert_eq!(Auth("x".to_owned()).cmd(), "AUTH");
    assert_eq!(Nop.cmd(), "NOP");
    assert_eq!(Cls.cmd(), "CLS");
    assert_eq!(Rdy(12).cmd(), "RDY 12");
}

#[test]
fn command_bodies() {
    assert!(Fin("id1".to_owned()).msg().is_empty());
    assert!(Nop.msg().is_empty());
    assert_eq!(Pub("t".to_owned(), vec![1, 2]).msg(), vec![vec![1, 2]]);
    assert_eq!(Mpub("t".to_owned(), vec![vec![1], vec![2, 3]]).msg(), vec![vec![1], vec![2, 3]]);
    assert_eq!(Dpub("t".to_owned(), 1, vec![9]).msg(), vec![vec![9]]);
    assert_eq!(Identify("{}".to_owned()).msg(), vec![b"{}".to_vec()]);
    assert_eq!(Auth("©".to_owned()).msg(), vec![vec![194, 169]]);
}

#[test]
fn as_cmd_joins_line_and_bodies() {
    let c = Pub("t".to_owned(), vec![5]).as_cmd();
    assert_eq!(c.cmd, "PUB t");
    assert_eq!(c.msg, vec![vec![5]]);
    let again = c.as_cmd();
    assert_eq!(again.cmd, "PUB t");
    assert_eq!(again.msg, vec![vec![5]]);
    let direct = Cmd::new("X".to_owned(), vec![]);
    assert_eq!(direct.cmd(), "X");
}

#[test]
fn built_commands_carry_their_bodies() {
    assert_eq!(Built::Command("NOP".to_owned()).cmd(), "NOP");
    assert!(Built::Command("NOP".to_owned()).msg().is_empty());
    assert_eq!(Built::Msg("PUB t".to_owned(), "hi".to_owned()).msg(), vec![b"hi".to_vec()]);
    let m = Built::MMsg("MPUB t".to_owned(), vec!["a".to_owned(), "©".to_owned()]);
    assert_eq!(m.cmd(), "MPUB t");
    assert_eq!(m.msg(), vec![b"a".to_vec(), vec![194, 169]]);
}
