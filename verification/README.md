# pengmai_shell

The decisions of a desktop shell around the web page of a print shop, written and
proved in Verus.

The shell hosts the page in a window, keeps running in the tray, shows notification
cards, listens for barcode scanners in the background, and installs updates of itself.
`src/` holds what it decides; `app/` holds what it does to windows, disk, clock and
network.

| module     | decides                                                              |
|------------|----------------------------------------------------------------------|
| `scan`     | which key presses are a barcode                                      |
| `update`   | what an update check leads to, and when the user is told             |
| `download` | which progress is reported, and how a download ends                  |
| `toast`    | what a system notification says, and what a click on it means        |
| `popup`    | how a notification card comes on the screen, and what a click means  |
| `folder`   | how a file or folder is opened in the file manager                   |
| `save`     | what the page hears of a file that it saved                          |
| `shell`    | start-up, titles, child windows, closing, tray, timetable of checks  |
| `desktop`  | shared vocabulary: windows, dialogs, identifiers                     |
| `text`     | comparing, joining, trimming, decimal numbers                        |

Each executable function states its result exactly. Properties that span several calls
are the proof functions whose names start with `law_`.

What is believed without proof: that the setters of `notify_rust::Notification` set
what their names say.
